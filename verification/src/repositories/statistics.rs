//! How the play-time-over-time series is bucketed.
use vstd::prelude::*;
use crate::domain::statistics::StatsGranularity;
use crate::text::{int_text, nat_text};

verus! {

/// How many games the "top games by play time" list shows.
pub const TOP_GAMES_LIMIT: i64 = 8;

/// The SQL expression that keys a daily row into its bucket: the Monday of
/// its week, its month, or its year.
pub open spec fn bucket_text(granularity: StatsGranularity) -> Seq<char> {
    match granularity {
        StatsGranularity::Week => "date(play_date, 'weekday 0', '-6 days')"@,
        StatsGranularity::Month => "strftime('%Y-%m', play_date)"@,
        StatsGranularity::Year => "strftime('%Y', play_date)"@,
    }
}

/// The bucket expression of a granularity.
pub fn over_time_bucket(granularity: StatsGranularity) -> (r: &'static str)
    ensures
        r@ == bucket_text(granularity),
{
    match granularity {
        StatsGranularity::Week => "date(play_date, 'weekday 0', '-6 days')",
        StatsGranularity::Month => "strftime('%Y-%m', play_date)",
        StatsGranularity::Year => "strftime('%Y', play_date)",
    }
}

/// The query of play seconds per bucket, in bucket order.
pub fn over_time_sql(granularity: StatsGranularity) -> (r: String)
    ensures
        r@ == "SELECT "@ + bucket_text(granularity)
            + ", SUM(duration_seconds) FROM daily_play_time GROUP BY 1 ORDER BY 1"@,
{
    let mut sql = "SELECT ".to_owned();
    sql.append(over_time_bucket(granularity));
    sql.append(", SUM(duration_seconds) FROM daily_play_time GROUP BY 1 ORDER BY 1");
    sql
}

/// A modifier of SQLite's `date()` function, as the bucket expressions use
/// them: `'weekday N'` and `'K days'`.
pub enum DateModifier {
    Weekday(nat),
    Days(int),
}

/// The text of a modifier inside a `date()` call.
pub open spec fn modifier_text(m: DateModifier) -> Seq<char> {
    match m {
        DateModifier::Weekday(n) => "weekday "@ + nat_text(n),
        DateModifier::Days(k) => int_text(k) + " days"@,
    }
}

/// The quoted modifiers of a call, each after `, `.
pub open spec fn modifiers_text(ms: Seq<DateModifier>) -> Seq<char>
    decreases ms.len(),
{
    if ms.len() == 0 {
        Seq::empty()
    } else {
        modifiers_text(ms.drop_last()) + ", '"@ + modifier_text(ms.last()) + "'"@
    }
}

/// `date(column, 'm1', 'm2', …)`.
pub open spec fn date_call(column: Seq<char>, ms: Seq<DateModifier>) -> Seq<char> {
    "date("@ + column + modifiers_text(ms) + ")"@
}

/// The day of the week of a day counted from 1970-01-01, a Thursday, with
/// Sunday as 0 as SQLite numbers them.
pub open spec fn weekday_of(day: int) -> int {
    (day + 4) % 7
}

/// What a modifier does to a day, as SQLite documents it: `'weekday N'`
/// moves forward, if needed, to the next day whose weekday is N, and
/// `'K days'` adds K days.
pub open spec fn apply_modifier(m: DateModifier, day: int) -> int {
    match m {
        DateModifier::Weekday(n) => day + (n - weekday_of(day)) % 7,
        DateModifier::Days(k) => day + k,
    }
}

/// The day that a list of modifiers makes of a day, applied in order.
pub open spec fn apply_modifiers(ms: Seq<DateModifier>, day: int) -> int
    decreases ms.len(),
{
    if ms.len() == 0 {
        day
    } else {
        apply_modifier(ms.last(), apply_modifiers(ms.drop_last(), day))
    }
}

/// The weekly bucket keys every day by the Monday of its week: the
/// expression is a `date()` of the play date whose modifiers take each day to
/// a Monday no later than it and less than a week before it. So the seven
/// days from a Monday to the Sunday after it share one key, and days of
/// different weeks have different keys.
pub proof fn lemma_week_bucket_is_its_monday()
    ensures
        exists|ms: Seq<DateModifier>|
            {
                &&& #[trigger] date_call("play_date"@, ms) == bucket_text(StatsGranularity::Week)
                &&& forall|day: int|
                    {
                        let key = #[trigger] apply_modifiers(ms, day);
                        weekday_of(key) == 1 && key <= day < key + 7
                    }
                &&& forall|d1: int, d2: int|
                    (#[trigger] apply_modifiers(ms, d1) == #[trigger] apply_modifiers(ms, d2)) <==> (
                    apply_modifiers(ms, d1) <= d2 < apply_modifiers(ms, d1) + 7)
            },
{
    let ms = seq![DateModifier::Weekday(0), DateModifier::Days(-6)];
    reveal_strlit("date(play_date, 'weekday 0', '-6 days')");
    reveal_strlit("date(");
    reveal_strlit("play_date");
    reveal_strlit(", '");
    reveal_strlit("'");
    reveal_strlit("weekday ");
    reveal_strlit(" days");
    reveal_strlit(")");
    assert(nat_text(0) =~= seq!['0']);
    assert(nat_text(6) =~= seq!['6']);
    assert(int_text(-6) =~= seq!['-', '6']);
    assert(ms.drop_last().drop_last() =~= Seq::<DateModifier>::empty());
    assert(ms.drop_last() =~= seq![DateModifier::Weekday(0)]);
    assert(modifiers_text(ms.drop_last().drop_last()) =~= Seq::<char>::empty());
    assert(ms.drop_last().last() == DateModifier::Weekday(0));
    assert(ms.last() == DateModifier::Days(-6));
    assert(modifiers_text(ms.drop_last()) =~= ", '"@ + ("weekday "@ + seq!['0']) + "'"@);
    assert(modifiers_text(ms) =~= ", '"@ + ("weekday "@ + seq!['0']) + "'"@ + ", '"@ + (seq!['-', '6']
        + " days"@) + "'"@);
    assert(date_call("play_date"@, ms) =~= "date(play_date, 'weekday 0', '-6 days')"@);
    assert forall|day: int| {
        let key = #[trigger] apply_modifiers(ms, day);
        weekday_of(key) == 1 && key <= day < key + 7
    } by {
        let w = weekday_of(day);
        assert(apply_modifiers(ms.drop_last().drop_last(), day) == day);
        assert(ms.drop_last().last() == DateModifier::Weekday(0));
        assert(ms.last() == DateModifier::Days(-6));
        assert(apply_modifiers(ms.drop_last(), day) == day + (0 - w) % 7);
        assert(0 <= w < 7);
        assert(weekday_of(day + (0 - w) % 7 - 6) == 1) by {
            assert((day + 4) % 7 == w);
        }
    }
    assert forall|d1: int, d2: int|
        (#[trigger] apply_modifiers(ms, d1) == #[trigger] apply_modifiers(ms, d2)) <==> (
        apply_modifiers(ms, d1) <= d2 < apply_modifiers(ms, d1) + 7) by {
        let k1 = apply_modifiers(ms, d1);
        let k2 = apply_modifiers(ms, d2);
        assert(weekday_of(k1) == 1 && k1 <= d1 < k1 + 7);
        assert(weekday_of(k2) == 1 && k2 <= d2 < k2 + 7);
        if k1 <= d2 < k1 + 7 && k1 != k2 {
            assert((k1 + 4) % 7 == (k2 + 4) % 7);
            assert(-7 < k1 - k2 < 7);
        }
    }
    assert(date_call("play_date"@, ms) == bucket_text(StatsGranularity::Week));
}

/// A piece of an SQLite `strftime` format: the year, the month, or literal
/// text.
pub enum FormatPiece {
    Year,
    Month,
    Text(Seq<char>),
}

/// The text of a format piece.
pub open spec fn piece_text(p: FormatPiece) -> Seq<char> {
    match p {
        FormatPiece::Year => "%Y"@,
        FormatPiece::Month => "%m"@,
        FormatPiece::Text(t) => t,
    }
}

/// The text of a format.
pub open spec fn format_text(ps: Seq<FormatPiece>) -> Seq<char>
    decreases ps.len(),
{
    if ps.len() == 0 {
        Seq::empty()
    } else {
        format_text(ps.drop_last()) + piece_text(ps.last())
    }
}

/// `strftime('format', column)`.
pub open spec fn strftime_call(ps: Seq<FormatPiece>, column: Seq<char>) -> Seq<char> {
    "strftime('"@ + format_text(ps) + "', "@ + column + ")"@
}

/// The calendar fields a format writes of a date `(year, month, day)`, in
/// order; the fields are written at fixed width, so two dates give the same
/// text exactly when they give the same fields.
pub open spec fn format_fields(ps: Seq<FormatPiece>, date: (int, int, int)) -> Seq<int>
    decreases ps.len(),
{
    if ps.len() == 0 {
        Seq::empty()
    } else {
        let rest = format_fields(ps.drop_last(), date);
        match ps.last() {
            FormatPiece::Year => rest.push(date.0),
            FormatPiece::Month => rest.push(date.1),
            FormatPiece::Text(_) => rest,
        }
    }
}

/// The monthly bucket keys a day by its year and month: two days share a
/// key exactly when they fall in the same month of the same year.
pub proof fn lemma_month_bucket_is_its_month()
    ensures
        exists|ps: Seq<FormatPiece>|
            {
                &&& #[trigger] strftime_call(ps, "play_date"@) == bucket_text(StatsGranularity::Month)
                &&& forall|a: (int, int, int), b: (int, int, int)|
                    (#[trigger] format_fields(ps, a) == #[trigger] format_fields(ps, b)) <==> (a.0
                        == b.0 && a.1 == b.1)
            },
{
    let ps = seq![FormatPiece::Year, FormatPiece::Text("-"@), FormatPiece::Month];
    reveal_strlit("strftime('%Y-%m', play_date)");
    reveal_strlit("strftime('");
    reveal_strlit("', ");
    reveal_strlit("play_date");
    reveal_strlit(")");
    reveal_strlit("%Y");
    reveal_strlit("%m");
    reveal_strlit("-");
    let p1 = ps.drop_last();
    let p0 = p1.drop_last();
    assert(p0 =~= seq![FormatPiece::Year]);
    assert(p0.drop_last() =~= Seq::<FormatPiece>::empty());
    assert(format_text(p0.drop_last()) =~= Seq::<char>::empty());
    assert(p0.last() == FormatPiece::Year);
    assert(p1.last() == FormatPiece::Text("-"@));
    assert(ps.last() == FormatPiece::Month);
    assert(format_text(p0) =~= "%Y"@);
    assert(format_text(p1) =~= "%Y"@ + "-"@);
    assert(format_text(ps) =~= "%Y"@ + "-"@ + "%m"@);
    assert(strftime_call(ps, "play_date"@) =~= "strftime('%Y-%m', play_date)"@);
    assert forall|a: (int, int, int), b: (int, int, int)|
        (#[trigger] format_fields(ps, a) == #[trigger] format_fields(ps, b)) <==> (a.0 == b.0 && a.1
            == b.1) by {
        assert(format_fields(p0.drop_last(), a) =~= Seq::<int>::empty());
        assert(format_fields(p0.drop_last(), b) =~= Seq::<int>::empty());
        assert(format_fields(p0, a) =~= seq![a.0]);
        assert(format_fields(p0, b) =~= seq![b.0]);
        assert(format_fields(p1, a) =~= seq![a.0]);
        assert(format_fields(p1, b) =~= seq![b.0]);
        assert(format_fields(ps, a) =~= seq![a.0, a.1]);
        assert(format_fields(ps, b) =~= seq![b.0, b.1]);
        if format_fields(ps, a) == format_fields(ps, b) {
            assert(format_fields(ps, a)[0] == format_fields(ps, b)[0]);
            assert(format_fields(ps, a)[1] == format_fields(ps, b)[1]);
        }
    }
}

/// The yearly bucket keys a day by its year: two days share a key exactly
/// when they fall in the same year.
pub proof fn lemma_year_bucket_is_its_year()
    ensures
        exists|ps: Seq<FormatPiece>|
            {
                &&& #[trigger] strftime_call(ps, "play_date"@) == bucket_text(StatsGranularity::Year)
                &&& forall|a: (int, int, int), b: (int, int, int)|
                    (#[trigger] format_fields(ps, a) == #[trigger] format_fields(ps, b)) <==> a.0
                        == b.0
            },
{
    let ps = seq![FormatPiece::Year];
    reveal_strlit("strftime('%Y', play_date)");
    reveal_strlit("strftime('");
    reveal_strlit("', ");
    reveal_strlit("play_date");
    reveal_strlit(")");
    reveal_strlit("%Y");
    assert(ps.drop_last() =~= Seq::<FormatPiece>::empty());
    assert(format_text(ps.drop_last()) =~= Seq::<char>::empty());
    assert(ps.last() == FormatPiece::Year);
    assert(format_text(ps) =~= "%Y"@);
    assert(strftime_call(ps, "play_date"@) =~= "strftime('%Y', play_date)"@);
    assert forall|a: (int, int, int), b: (int, int, int)|
        (#[trigger] format_fields(ps, a) == #[trigger] format_fields(ps, b)) <==> a.0 == b.0 by {
        assert(format_fields(ps.drop_last(), a) =~= Seq::<int>::empty());
        assert(format_fields(ps.drop_last(), b) =~= Seq::<int>::empty());
        assert(format_fields(ps, a) =~= seq![a.0]);
        assert(format_fields(ps, b) =~= seq![b.0]);
        if format_fields(ps, a) == format_fields(ps, b) {
            assert(format_fields(ps, a)[0] == format_fields(ps, b)[0]);
        }
    }
}

} // verus!
