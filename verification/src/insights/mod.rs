//! Fee insights: errors, provider metadata and engine settings.

pub mod config;
pub mod error;
pub mod provider;
pub mod types;
