//! Play sessions and their daily aggregates.
use vstd::prelude::*;
use crate::text::str_eq;

verus! {

/// Who started a session.
#[derive(Debug, Clone, Copy, PartialEq, Eq, Structural)]
pub enum TrackingSource {
    Manual,
    Automatic,
}

impl TrackingSource {
    /// The storage text of a source.
    pub open spec fn text(self) -> Seq<char> {
        match self {
            TrackingSource::Manual => "manual"@,
            TrackingSource::Automatic => "automatic"@,
        }
    }

    /// The storage text of a source.
    pub fn as_str(self) -> (r: &'static str)
        ensures
            r@ == self.text(),
    {
        match self {
            TrackingSource::Manual => "manual",
            TrackingSource::Automatic => "automatic",
        }
    }
}

/// The source a stored text names: `automatic`, and anything else is manual.
pub open spec fn source_from_text(value: Seq<char>) -> TrackingSource {
    if value == "automatic"@ {
        TrackingSource::Automatic
    } else {
        TrackingSource::Manual
    }
}

/// Read a stored tracking source; unknown texts count as manual.
pub fn parse_source(value: &str) -> (r: TrackingSource)
    ensures
        r == source_from_text(value@),
{
    if str_eq(value, "automatic") {
        TrackingSource::Automatic
    } else {
        TrackingSource::Manual
    }
}

/// Reading back the text of a source gives the source.
pub proof fn lemma_source_round_trip(source: TrackingSource)
    ensures
        source_from_text(source.text()) == source,
{
    reveal_strlit("manual");
    reveal_strlit("automatic");
    assert("manual"@[0] == 'm' && "automatic"@[0] == 'a');
}

/// Why a session ended.
#[derive(Debug, Clone, Copy, PartialEq, Eq, Structural)]
pub enum SessionEndReason {
    Manual,
    ProcessExit,
    Afk,
    Shutdown,
    Recovery,
}

/// The session being tracked right now.
#[derive(Debug, Clone)]
pub struct PlaySession {
    pub game_id: i64,
    pub started_at: String,
    pub last_activity_at: String,
    pub tracking_source: TrackingSource,
}

/// Play time of one game on one local day.
#[derive(Debug, Clone)]
pub struct DailyPlayTime {
    pub game_id: i64,
    pub play_date: String,
    pub duration_seconds: i64,
    pub manual_seconds: i64,
    pub automatic_seconds: i64,
    pub sessions_count: i64,
    pub first_started_at: String,
    pub last_ended_at: String,
}

/// What the session indicator shows.
pub struct ActivePlaySummary {
    pub game_title: String,
    pub elapsed_seconds: i64,
}

/// Play time today and this week, from the daily aggregates.
#[derive(Debug, Clone, Copy)]
pub struct PlayTimeTotals {
    pub today_seconds: i64,
    pub week_seconds: i64,
}

} // verus!
