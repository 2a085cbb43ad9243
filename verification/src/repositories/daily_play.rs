//! How a finished play period is cut into the local days it touched: each
//! day receives the seconds of the period that fall between its local
//! midnights, and no second is lost or counted twice.
use vstd::prelude::*;
use crate::domain::play_session::TrackingSource;

verus! {

/// A local calendar day: its date and the instants (Unix seconds) of the
/// local midnight that starts it and of the one that ends it.
#[derive(Debug, Clone)]
pub struct LocalDay {
    pub play_date: String,
    pub starts_at: i64,
    pub ends_at: i64,
}

/// The part of a play period that falls on one local day.
#[derive(Debug, Clone)]
pub struct DaySegment {
    pub play_date: String,
    pub started_at: i64,
    pub ended_at: i64,
}

/// The larger of two instants.
pub open spec fn later(a: i64, b: i64) -> i64 {
    if a >= b {
        a
    } else {
        b
    }
}

/// The smaller of two instants.
pub open spec fn earlier(a: i64, b: i64) -> i64 {
    if a <= b {
        a
    } else {
        b
    }
}

/// The segments of the period `started..ended` on the given days, in day
/// order: each day's overlap with the period, where it is not empty.
pub open spec fn segments_of(started: i64, ended: i64, days: Seq<LocalDay>) -> Seq<(Seq<char>, i64, i64)>
    decreases days.len(),
{
    if days.len() == 0 {
        Seq::empty()
    } else {
        let rest = segments_of(started, ended, days.drop_last());
        let d = days.last();
        let s = later(started, d.starts_at);
        let e = earlier(ended, d.ends_at);
        if e > s {
            rest.push((d.play_date@, s, e))
        } else {
            rest
        }
    }
}

/// What a list of segments holds.
pub open spec fn segment_values(r: Seq<DaySegment>) -> Seq<(Seq<char>, i64, i64)> {
    r.map_values(|g: DaySegment| (g.play_date@, g.started_at, g.ended_at))
}

/// The seconds a list of segments covers.
pub open spec fn covered(segments: Seq<(Seq<char>, i64, i64)>) -> int
    decreases segments.len(),
{
    if segments.len() == 0 {
        0
    } else {
        covered(segments.drop_last()) + (segments.last().2 - segments.last().1)
    }
}

/// The days follow one another without gap or overlap, from the first to
/// the last.
pub open spec fn contiguous(days: Seq<LocalDay>) -> bool {
    &&& forall|i: int| 0 <= i < days.len() ==> (#[trigger] days[i]).starts_at <= days[i].ends_at
    &&& forall|i: int| 0 <= i < days.len() - 1 ==> (#[trigger] days[i]).ends_at == days[i + 1].starts_at
}

/// Cut the period `started..ended` into the parts that fall on each day.
pub fn split_by_day(started: i64, ended: i64, days: &Vec<LocalDay>) -> (r: Vec<DaySegment>)
    ensures
        segment_values(r@) == segments_of(started, ended, days@),
        days@.len() > 0 && contiguous(days@) && days@[0].starts_at <= started <= ended
            <= days@.last().ends_at ==> covered(segment_values(r@)) == ended - started,
        ended <= started ==> r@.len() == 0,
{
    let mut out: Vec<DaySegment> = Vec::new();
    let n = days.len();
    let mut i: usize = 0;
    while i < n
        invariant
            i <= n == days@.len(),
            segment_values(out@) == segments_of(started, ended, days@.take(i as int)),
        decreases n - i,
    {
        let d = &days[i];
        let s = if started >= d.starts_at { started } else { d.starts_at };
        let e = if ended <= d.ends_at { ended } else { d.ends_at };
        proof {
            assert(days@.take(i as int + 1).drop_last() =~= days@.take(i as int));
            assert(days@.take(i as int + 1).last() == days@[i as int]);
        }
        if e > s {
            let ghost prev = out@;
            out.push(DaySegment { play_date: d.play_date.clone(), started_at: s, ended_at: e });
            assert(segment_values(out@) =~= segment_values(prev).push((d.play_date@, s, e)));
        }
        i = i + 1;
    }
    assert(days@.take(n as int) =~= days@);
    proof {
        if days@.len() > 0 && contiguous(days@) && days@[0].starts_at <= started <= ended
            <= days@.last().ends_at {
            lemma_split_keeps_seconds(started, ended, days@);
        }
        if ended <= started {
            lemma_no_segment_of_empty_period(started, ended, days@);
        }
    }
    out
}

/// An empty or reversed period falls on no day.
proof fn lemma_no_segment_of_empty_period(started: i64, ended: i64, days: Seq<LocalDay>)
    requires
        ended <= started,
    ensures
        segments_of(started, ended, days).len() == 0,
    decreases days.len(),
{
    if days.len() > 0 {
        lemma_no_segment_of_empty_period(started, ended, days.drop_last());
    }
}

/// Over contiguous days that begin before the period does, the segments
/// cover the period from its start up to the end of the last day.
proof fn lemma_covered_prefix(started: i64, ended: i64, days: Seq<LocalDay>)
    requires
        days.len() > 0,
        contiguous(days),
        days[0].starts_at <= started,
        started <= ended,
    ensures
        covered(segments_of(started, ended, days)) == if earlier(ended, days.last().ends_at)
            > started {
            earlier(ended, days.last().ends_at) - started
        } else {
            0
        },
    decreases days.len(),
{
    let rest = days.drop_last();
    if days.len() == 1 {
        assert(segments_of(started, ended, rest) =~= Seq::<(Seq<char>, i64, i64)>::empty());
    } else {
        assert(contiguous(rest)) by {
            assert forall|i: int| 0 <= i < rest.len() implies (#[trigger] rest[i]).starts_at
                <= rest[i].ends_at by {
                assert(rest[i] == days[i]);
            }
            assert forall|i: int| 0 <= i < rest.len() - 1 implies (#[trigger] rest[i]).ends_at
                == rest[i + 1].starts_at by {
                assert(rest[i] == days[i] && rest[i + 1] == days[i + 1]);
            }
        }
        assert(rest[0] == days[0]);
        lemma_covered_prefix(started, ended, rest);
        assert(rest.last() == days[days.len() - 2]);
        assert(days[days.len() - 2].ends_at == days[days.len() - 1].starts_at);
        assert(days.last() == days[days.len() - 1]);
    }
    let seg = segments_of(started, ended, days);
    let prev = segments_of(started, ended, rest);
    let d = days.last();
    let s = later(started, d.starts_at);
    let e = earlier(ended, d.ends_at);
    if e > s {
        assert(seg == prev.push((d.play_date@, s, e)));
        assert(seg.drop_last() =~= prev);
        assert(covered(seg) == covered(prev) + (e - s));
    } else {
        assert(seg == prev);
    }
}

/// A period that lies within contiguous days loses no second when it is cut
/// at their midnights: the segments cover exactly its length, and each one
/// lies within the period.
pub proof fn lemma_split_keeps_seconds(started: i64, ended: i64, days: Seq<LocalDay>)
    requires
        days.len() > 0,
        contiguous(days),
        days[0].starts_at <= started,
        started <= ended,
        ended <= days.last().ends_at,
    ensures
        covered(segments_of(started, ended, days)) == ended - started,
        forall|k: int| 0 <= k < segments_of(started, ended, days).len() ==> {
            let g = #[trigger] segments_of(started, ended, days)[k];
            started <= g.1 < g.2 <= ended
        },
{
    lemma_covered_prefix(started, ended, days);
    lemma_segments_within(started, ended, days);
}

/// Every segment lies within the period.
proof fn lemma_segments_within(started: i64, ended: i64, days: Seq<LocalDay>)
    ensures
        forall|k: int| 0 <= k < segments_of(started, ended, days).len() ==> {
            let g = #[trigger] segments_of(started, ended, days)[k];
            started <= g.1 < g.2 <= ended
        },
    decreases days.len(),
{
    if days.len() > 0 {
        lemma_segments_within(started, ended, days.drop_last());
        let rest = segments_of(started, ended, days.drop_last());
        let seg = segments_of(started, ended, days);
        assert forall|k: int| 0 <= k < seg.len() implies {
            let g = #[trigger] seg[k];
            started <= g.1 < g.2 <= ended
        } by {
            if k < rest.len() {
                assert(seg[k] == rest[k]);
            }
        }
    }
}

/// The seconds of one day's share that count as manual and as automatic
/// play: all of them go to the source of the session.
pub fn seconds_by_source(seconds: i64, source: TrackingSource) -> (r: (i64, i64))
    ensures
        source == TrackingSource::Manual ==> r == (seconds, 0i64),
        source == TrackingSource::Automatic ==> r == (0i64, seconds),
{
    match source {
        TrackingSource::Manual => (seconds, 0),
        TrackingSource::Automatic => (0, seconds),
    }
}

} // verus!
