//! Metadata about fee data providers.

use vstd::prelude::*;

verus! {

/// Metadata about a fee data provider.
#[derive(Debug, Clone, Copy, PartialEq, Eq, Structural)]
pub struct ProviderMetadata {
    pub supports_historical: bool,
    pub max_batch_size: usize,
    pub rate_limit_per_minute: Option<u32>,
    pub data_freshness_seconds: u32,
}

impl Default for ProviderMetadata {
    fn default() -> (m: Self)
        ensures
            m == (ProviderMetadata {
                supports_historical: false,
                max_batch_size: 100,
                rate_limit_per_minute: None,
                data_freshness_seconds: 60,
            }),
    {
        Self {
            supports_historical: false,
            max_batch_size: 100,
            rate_limit_per_minute: None,
            data_freshness_seconds: 60,
        }
    }
}

} // verus!
