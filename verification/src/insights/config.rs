//! Settings of the fee insights engine that hold no fractional values.

use vstd::prelude::*;

use crate::insights::types::TimeWindow;

verus! {

/// Configuration for rolling averages.
#[derive(Debug, Clone, Copy, PartialEq, Eq, Structural)]
pub struct AverageConfig {
    pub max_buffer_size: usize,
    pub min_samples_for_calculation: usize,
}

impl Default for AverageConfig {
    fn default() -> (c: Self)
        ensures
            c == (AverageConfig { max_buffer_size: 10000, min_samples_for_calculation: 5 }),
    {
        Self { max_buffer_size: 10000, min_samples_for_calculation: 5 }
    }
}

/// Configuration for extremes tracking; `tracking_period` is in seconds.
#[derive(Debug, Clone, Copy, PartialEq, Eq, Structural)]
pub struct ExtremesConfig {
    pub tracking_period: i64,
    pub historical_periods_to_keep: usize,
}

impl Default for ExtremesConfig {
    fn default() -> (c: Self)
        ensures
            c == (ExtremesConfig { tracking_period: 86400, historical_periods_to_keep: 30 }),
    {
        Self { tracking_period: 24 * 3600, historical_periods_to_keep: 30 }
    }
}

/// The default time windows of the insights engine: one hour, six hours and
/// a day, with the fewest samples each needs.
pub open spec fn window_spec(w: TimeWindow, name: Seq<char>, duration: i64, min_samples: usize) -> bool {
    &&& w.name@ == name
    &&& w.duration == duration
    &&& w.min_samples == min_samples
}

/// The default time windows: short term (one hour, 10 samples), medium term
/// (six hours, 30 samples) and long term (a day, 100 samples).
pub fn default_time_windows() -> (v: Vec<TimeWindow>)
    ensures
        v@.len() == 3,
        window_spec(v@[0], "short_term"@, 3600, 10),
        window_spec(v@[1], "medium_term"@, 21600, 30),
        window_spec(v@[2], "long_term"@, 86400, 100),
{
    let mut v: Vec<TimeWindow> = Vec::new();
    v.push(TimeWindow { name: String::from_str("short_term"), duration: 3600, min_samples: 10 });
    v.push(
        TimeWindow { name: String::from_str("medium_term"), duration: 6 * 3600, min_samples: 30 },
    );
    v.push(TimeWindow { name: String::from_str("long_term"), duration: 24 * 3600, min_samples: 100 });
    v
}

} // verus!
