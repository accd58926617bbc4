//! HTTP API helpers.

pub mod headers;
