//! Core data types for fee insights.

use vstd::prelude::*;

use crate::timestamp::UtcTimestamp;

verus! {

/// A single fee data point from the blockchain.
#[derive(Debug)]
pub struct FeeDataPoint {
    pub fee_amount: u64,
    pub timestamp: UtcTimestamp,
    pub transaction_hash: String,
    pub ledger_sequence: u64,
}

impl Clone for FeeDataPoint {
    fn clone(&self) -> (res: Self)
        ensures
            res == *self,
    {
        FeeDataPoint {
            fee_amount: self.fee_amount,
            timestamp: self.timestamp,
            transaction_hash: self.transaction_hash.clone(),
            ledger_sequence: self.ledger_sequence,
        }
    }
}

/// Time window configuration; `duration` is a length of time in seconds.
#[derive(Debug, Clone, PartialEq, Eq, Hash)]
pub struct TimeWindow {
    pub name: String,
    pub duration: i64,
    pub min_samples: usize,
}

/// An extreme fee value with metadata.
#[derive(Debug, Clone)]
pub struct ExtremeValue {
    pub value: u64,
    pub timestamp: UtcTimestamp,
    pub transaction_hash: String,
}

/// Fee extremes (min/max) tracking.
#[derive(Debug, Clone)]
pub struct FeeExtremes {
    pub current_min: ExtremeValue,
    pub current_max: ExtremeValue,
    pub period_start: UtcTimestamp,
    pub period_end: UtcTimestamp,
}

/// Trend indicator for congestion.
#[derive(Debug, Clone, Copy, PartialEq, Eq, Structural)]
pub enum TrendIndicator {
    Normal,
    Rising,
    Congested,
    Declining,
}

/// Strength of a congestion trend.
#[derive(Debug, Clone, Copy, PartialEq, Eq, Structural)]
pub enum TrendStrength {
    Weak,
    Moderate,
    Strong,
}

/// Severity classification for fee spikes.
#[derive(Debug, Clone, Copy, PartialEq, Eq, Structural)]
pub enum SpikeSeverity {
    Minor,
    Moderate,
    Major,
    Critical,
}

} // verus!
