//! Values of the Statistics page that hold no fractions.
use vstd::prelude::*;

verus! {

/// Bucketing granularity of the play-time-over-time series.
#[derive(Debug, Clone, Copy, PartialEq, Eq, Structural)]
pub enum StatsGranularity {
    Week,
    Month,
    Year,
}

impl Default for StatsGranularity {
    fn default() -> (r: StatsGranularity)
        ensures
            r == StatsGranularity::Month,
    {
        StatsGranularity::Month
    }
}

/// One labelled data point: seconds for play-time series, a count otherwise.
#[derive(Debug, Clone)]
pub struct StatBar {
    pub key: String,
    pub value: i64,
}

} // verus!
