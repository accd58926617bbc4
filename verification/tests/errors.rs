use axum::http::StatusCode;
use stellar_fees::error::AppError;
use stellar_fees::insights::error::{InsightsError, ProviderError};

fn status_of(err: AppError) -> StatusCode {
    StatusCode::from_u16(err.status_code()).unwrap()
}

#[test]
fn config_error_returns_500() {
    assert_eq!(
        status_of(AppError::Config("bad config".into())),
        StatusCode::INTERNAL_SERVER_ERROR
    );
}

#[test]
fn network_error_returns_502() {
    assert_eq!(
        status_of(AppError::Network("timeout".into())),
        StatusCode::BAD_GATEWAY
    );
}

#[test]
fn parse_error_returns_422() {
    assert_eq!(
        status_of(AppError::Parse("invalid json".into())),
        StatusCode::UNPROCESSABLE_ENTITY
    );
}

#[test]
fn unknown_error_returns_500() {
    assert_eq!(
        status_of(AppError::Unknown("something broke".into())),
        StatusCode::INTERNAL_SERVER_ERROR
    );
}

#[test]
fn display_messages_are_prefixed() {
    assert_eq!(
        AppError::Config("missing key".into()).message(),
        "Config error: missing key"
    );
    assert_eq!(
        AppError::Network("refused".into()).message(),
        "Network error: refused"
    );
    assert_eq!(
        AppError::Parse("bad field".into()).message(),
        "Parse error: bad field"
    );
    assert_eq!(
        AppError::Unknown("???".into()).message(),
        "Unknown error: ???"
    );
}

#[test]
fn insights_error_constructors_and_messages() {
    assert_eq!(InsightsError::invalid_data("neg").message(), "Invalid fee data: neg");
    assert_eq!(InsightsError::calculation_error("nan").message(), "Calculation error: nan");
    assert_eq!(InsightsError::config_error("window").message(), "Configuration error: window");
    assert_eq!(InsightsError::storage_error("disk").message(), "Storage error: disk");
    assert_eq!(
        InsightsError::insufficient_data("average").message(),
        "Insufficient data for calculation: average"
    );
    assert_eq!(
        InsightsError::numerical_overflow("sum").message(),
        "Numerical overflow in calculation: sum"
    );
    let wrapped = InsightsError::ProviderError { source: ProviderError::RateLimitExceeded };
    assert_eq!(wrapped.message(), "Data provider error: Rate limit exceeded");
    assert!(matches!(
        InsightsError::invalid_data("x"),
        InsightsError::InvalidData { message } if message == "x"
    ));
}

#[test]
fn provider_error_messages() {
    let net = ProviderError::NetworkError { message: "down".into() };
    assert_eq!(net.message(), "Network error: down");
    assert_eq!(
        ProviderError::FormatError { message: "json".into() }.message(),
        "Data format error: json"
    );
    assert_eq!(
        ProviderError::AuthError { message: "key".into() }.message(),
        "Authentication error: key"
    );
    assert_eq!(ProviderError::ServiceUnavailable.message(), "Service unavailable");
    assert!(matches!(net.clone(), ProviderError::NetworkError { message } if message == "down"));
}
