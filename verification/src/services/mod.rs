//! Fee data sources.

pub mod mock_horizon;
