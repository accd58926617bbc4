//! Mock Horizon client for testing.
//!
//! A configurable stand-in for a fee data provider, so tests can exercise
//! the scheduler, insights engine, and API handlers without a live Horizon
//! node.

use vstd::prelude::*;

use crate::insights::error::ProviderError;
use crate::insights::provider::ProviderMetadata;
use crate::insights::types::FeeDataPoint;

verus! {

/// A configurable mock fee data provider.
pub struct MockHorizonClient {
    /// Pre-configured fee data points to return on `fetch_latest_fees`.
    responses: Vec<FeeDataPoint>,
    /// When `Some`, `fetch_latest_fees` returns this error instead of `responses`.
    error: Option<ProviderError>,
    /// Total number of `fetch_latest_fees` calls (wrapping).
    call_count: usize,
    /// Controls whether `health_check` succeeds or returns `ServiceUnavailable`.
    healthy: bool,
}

impl MockHorizonClient {
    pub closed spec fn responses(&self) -> Seq<FeeDataPoint> {
        self.responses@
    }

    pub closed spec fn error(&self) -> Option<ProviderError> {
        self.error
    }

    pub closed spec fn call_count(&self) -> usize {
        self.call_count
    }

    pub closed spec fn healthy(&self) -> bool {
        self.healthy
    }

    /// Create a new mock with no responses and a healthy status.
    pub fn new() -> (m: Self)
        ensures
            m.responses() == Seq::<FeeDataPoint>::empty(),
            m.error() is None,
            m.call_count() == 0,
            m.healthy(),
    {
        Self { responses: Vec::new(), error: None, call_count: 0, healthy: true }
    }

    /// Set the fee data points returned by `fetch_latest_fees`.
    pub fn with_fees(self, fees: Vec<FeeDataPoint>) -> (m: Self)
        ensures
            m.responses() == fees@,
            m.error() == self.error(),
            m.call_count() == self.call_count(),
            m.healthy() == self.healthy(),
    {
        let mut m = self;
        m.responses = fees;
        m
    }

    /// Set the error returned by `fetch_latest_fees` (overrides `with_fees`).
    pub fn with_error(self, error: ProviderError) -> (m: Self)
        ensures
            m.responses() == self.responses(),
            m.error() == Some(error),
            m.call_count() == self.call_count(),
            m.healthy() == self.healthy(),
    {
        let mut m = self;
        m.error = Some(error);
        m
    }

    /// Control whether `health_check` succeeds (`true`) or fails (`false`).
    pub fn with_healthy(self, healthy: bool) -> (m: Self)
        ensures
            m.responses() == self.responses(),
            m.error() == self.error(),
            m.call_count() == self.call_count(),
            m.healthy() == healthy,
    {
        let mut m = self;
        m.healthy = healthy;
        m
    }

    /// Returns the current call count.
    pub fn calls(&self) -> (n: usize)
        ensures
            n == self.call_count(),
    {
        self.call_count
    }

    /// Counts the call, then returns the configured error if there is one,
    /// else the configured fee points.
    pub fn fetch_latest_fees(&mut self) -> (r: Result<Vec<FeeDataPoint>, ProviderError>)
        ensures
            final(self).call_count() == old(self).call_count().wrapping_add(1),
            final(self).responses() == old(self).responses(),
            final(self).error() == old(self).error(),
            final(self).healthy() == old(self).healthy(),
            match old(self).error() {
                Some(e) => r == Err::<Vec<FeeDataPoint>, ProviderError>(e),
                None => r matches Ok(v) && v@ == old(self).responses(),
            },
    {
        self.call_count = self.call_count.wrapping_add(1);
        match &self.error {
            Some(err) => {
                return Err(err.clone());
            },
            None => {},
        }
        let mut out: Vec<FeeDataPoint> = Vec::new();
        let mut i: usize = 0;
        while i < self.responses.len()
            invariant
                i <= self.responses@.len(),
                out@ == self.responses@.take(i as int),
            decreases self.responses@.len() - i,
        {
            out.push(self.responses[i].clone());
            i = i + 1;
            assert(out@ =~= self.responses@.take(i as int));
        }
        assert(self.responses@.take(self.responses@.len() as int) =~= self.responses@);
        Ok(out)
    }

    /// The name of this provider.
    pub fn provider_name(&self) -> (s: &'static str)
        ensures
            s@ == "MockHorizon"@,
    {
        "MockHorizon"
    }

    /// Succeeds when the mock is healthy, else fails with `ServiceUnavailable`,
    /// whatever error `fetch_latest_fees` is set to give.
    pub fn health_check(&self) -> (r: Result<(), ProviderError>)
        ensures
            self.healthy() ==> r is Ok,
            !self.healthy() ==> r == Err::<(), ProviderError>(ProviderError::ServiceUnavailable),
    {
        if self.healthy {
            Ok(())
        } else {
            Err(ProviderError::ServiceUnavailable)
        }
    }

    /// The mock's metadata: no history, batches of 100, no rate limit, data
    /// five seconds fresh.
    pub fn get_metadata(&self) -> (m: ProviderMetadata)
        ensures
            m == (ProviderMetadata {
                supports_historical: false,
                max_batch_size: 100,
                rate_limit_per_minute: None,
                data_freshness_seconds: 5,
            }),
    {
        ProviderMetadata {
            supports_historical: false,
            max_batch_size: 100,
            rate_limit_per_minute: None,
            data_freshness_seconds: 5,
        }
    }
}

impl Default for MockHorizonClient {
    fn default() -> (m: Self)
        ensures
            m.responses() == Seq::<FeeDataPoint>::empty(),
            m.error() is None,
            m.call_count() == 0,
            m.healthy(),
    {
        Self::new()
    }
}

} // verus!
