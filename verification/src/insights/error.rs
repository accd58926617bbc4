//! Error types for fee insights operations.

use vstd::prelude::*;

verus! {

/// Errors from fee data providers.
#[derive(Debug)]
pub enum ProviderError {
    NetworkError { message: String },
    FormatError { message: String },
    AuthError { message: String },
    RateLimitExceeded,
    ServiceUnavailable,
}

impl Clone for ProviderError {
    fn clone(&self) -> (e: Self)
        ensures
            e == *self,
    {
        match self {
            ProviderError::NetworkError { message } => ProviderError::NetworkError {
                message: message.clone(),
            },
            ProviderError::FormatError { message } => ProviderError::FormatError {
                message: message.clone(),
            },
            ProviderError::AuthError { message } => ProviderError::AuthError {
                message: message.clone(),
            },
            ProviderError::RateLimitExceeded => ProviderError::RateLimitExceeded,
            ProviderError::ServiceUnavailable => ProviderError::ServiceUnavailable,
        }
    }
}

/// The message that describes `e`.
pub open spec fn provider_error_text(e: ProviderError) -> Seq<char> {
    match e {
        ProviderError::NetworkError { message } => "Network error: "@ + message@,
        ProviderError::FormatError { message } => "Data format error: "@ + message@,
        ProviderError::AuthError { message } => "Authentication error: "@ + message@,
        ProviderError::RateLimitExceeded => "Rate limit exceeded"@,
        ProviderError::ServiceUnavailable => "Service unavailable"@,
    }
}

/// `prefix` followed by `rest`, as a new string.
fn joined(prefix: &str, rest: &str) -> (s: String)
    ensures
        s@ == prefix@ + rest@,
{
    let mut s = String::from_str(prefix);
    s.append(rest);
    s
}

impl ProviderError {
    /// The message that describes this error.
    pub fn message(&self) -> (s: String)
        ensures
            s@ == provider_error_text(*self),
    {
        match self {
            ProviderError::NetworkError { message } => joined("Network error: ", message.as_str()),
            ProviderError::FormatError { message } => joined(
                "Data format error: ",
                message.as_str(),
            ),
            ProviderError::AuthError { message } => joined(
                "Authentication error: ",
                message.as_str(),
            ),
            ProviderError::RateLimitExceeded => String::from_str("Rate limit exceeded"),
            ProviderError::ServiceUnavailable => String::from_str("Service unavailable"),
        }
    }
}

/// Errors that can occur during insights processing.
#[derive(Debug)]
pub enum InsightsError {
    InvalidData { message: String },
    CalculationError { message: String },
    ConfigError { message: String },
    StorageError { message: String },
    ProviderError { source: ProviderError },
    InsufficientData { operation: String },
    NumericalOverflow { operation: String },
}

/// The message that describes `e`.
pub open spec fn insights_error_text(e: InsightsError) -> Seq<char> {
    match e {
        InsightsError::InvalidData { message } => "Invalid fee data: "@ + message@,
        InsightsError::CalculationError { message } => "Calculation error: "@ + message@,
        InsightsError::ConfigError { message } => "Configuration error: "@ + message@,
        InsightsError::StorageError { message } => "Storage error: "@ + message@,
        InsightsError::ProviderError { source } => "Data provider error: "@ + provider_error_text(
            source,
        ),
        InsightsError::InsufficientData { operation } => "Insufficient data for calculation: "@
            + operation@,
        InsightsError::NumericalOverflow { operation } => "Numerical overflow in calculation: "@
            + operation@,
    }
}

impl InsightsError {
    pub fn invalid_data(message: &str) -> (e: Self)
        ensures
            e matches InsightsError::InvalidData { message: m } && m@ == message@,
    {
        Self::InvalidData { message: String::from_str(message) }
    }

    pub fn calculation_error(message: &str) -> (e: Self)
        ensures
            e matches InsightsError::CalculationError { message: m } && m@ == message@,
    {
        Self::CalculationError { message: String::from_str(message) }
    }

    pub fn config_error(message: &str) -> (e: Self)
        ensures
            e matches InsightsError::ConfigError { message: m } && m@ == message@,
    {
        Self::ConfigError { message: String::from_str(message) }
    }

    pub fn storage_error(message: &str) -> (e: Self)
        ensures
            e matches InsightsError::StorageError { message: m } && m@ == message@,
    {
        Self::StorageError { message: String::from_str(message) }
    }

    pub fn insufficient_data(operation: &str) -> (e: Self)
        ensures
            e matches InsightsError::InsufficientData { operation: o } && o@ == operation@,
    {
        Self::InsufficientData { operation: String::from_str(operation) }
    }

    pub fn numerical_overflow(operation: &str) -> (e: Self)
        ensures
            e matches InsightsError::NumericalOverflow { operation: o } && o@ == operation@,
    {
        Self::NumericalOverflow { operation: String::from_str(operation) }
    }

    /// The message that describes this error.
    pub fn message(&self) -> (s: String)
        ensures
            s@ == insights_error_text(*self),
    {
        match self {
            InsightsError::InvalidData { message } => joined("Invalid fee data: ", message.as_str()),
            InsightsError::CalculationError { message } => joined(
                "Calculation error: ",
                message.as_str(),
            ),
            InsightsError::ConfigError { message } => joined(
                "Configuration error: ",
                message.as_str(),
            ),
            InsightsError::StorageError { message } => joined("Storage error: ", message.as_str()),
            InsightsError::ProviderError { source } => {
                let inner = source.message();
                joined("Data provider error: ", inner.as_str())
            },
            InsightsError::InsufficientData { operation } => joined(
                "Insufficient data for calculation: ",
                operation.as_str(),
            ),
            InsightsError::NumericalOverflow { operation } => joined(
                "Numerical overflow in calculation: ",
                operation.as_str(),
            ),
        }
    }
}

} // verus!
