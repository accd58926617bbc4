//! Verified core of the Stellar fee tracking service: configuration,
//! the fee history store, HTTP caching headers, API-key checks, error
//! types, alert delivery decisions and a mock fee provider.

pub mod alerts;
pub mod api;
pub mod config;
pub mod error;
pub mod insights;
pub mod middleware;
pub mod services;
pub mod store;
pub mod text;
pub mod timestamp;
