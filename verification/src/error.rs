//! Unified application error.
//!
//! This ensures all layers (config, network, parsing) fail in a predictable
//! and debuggable way.

use vstd::prelude::*;

verus! {

/// Unified application error.
#[derive(Debug)]
pub enum AppError {
    Config(String),
    Network(String),
    Parse(String),
    Unknown(String),
}

/// The message that describes `e`.
pub open spec fn app_error_text(e: AppError) -> Seq<char> {
    match e {
        AppError::Config(msg) => "Config error: "@ + msg@,
        AppError::Network(msg) => "Network error: "@ + msg@,
        AppError::Parse(msg) => "Parse error: "@ + msg@,
        AppError::Unknown(msg) => "Unknown error: "@ + msg@,
    }
}

/// The HTTP status that answers `e`.
pub open spec fn app_error_status(e: AppError) -> u16 {
    match e {
        AppError::Config(_) => 500,
        AppError::Network(_) => 502,
        AppError::Parse(_) => 422,
        AppError::Unknown(_) => 500,
    }
}

impl AppError {
    /// The message that describes this error, prefixed by its layer.
    pub fn message(&self) -> (s: String)
        ensures
            s@ == app_error_text(*self),
    {
        let (prefix, msg) = match self {
            AppError::Config(msg) => ("Config error: ", msg),
            AppError::Network(msg) => ("Network error: ", msg),
            AppError::Parse(msg) => ("Parse error: ", msg),
            AppError::Unknown(msg) => ("Unknown error: ", msg),
        };
        let mut s = String::from_str(prefix);
        s.append(msg.as_str());
        s
    }

    /// The HTTP status code of the response that reports this error:
    /// 500 for configuration and unknown errors, 502 for network errors,
    /// 422 for parse errors.
    pub fn status_code(&self) -> (c: u16)
        ensures
            c == app_error_status(*self),
    {
        match self {
            AppError::Config(_) => 500,
            AppError::Network(_) => 502,
            AppError::Parse(_) => 422,
            AppError::Unknown(_) => 500,
        }
    }
}

} // verus!
