use stellar_fees::insights::error::ProviderError;
use stellar_fees::insights::provider::ProviderMetadata;
use stellar_fees::insights::types::FeeDataPoint;
use stellar_fees::services::mock_horizon::MockHorizonClient;
use stellar_fees::timestamp::UtcTimestamp;

fn make_fee_point(fee_amount: u64) -> FeeDataPoint {
    let now = chrono::Utc::now();
    FeeDataPoint {
        fee_amount,
        timestamp: UtcTimestamp::new(now.timestamp(), now.timestamp_subsec_nanos()).unwrap(),
        transaction_hash: format!("hash_{}", fee_amount),
        ledger_sequence: 1,
    }
}

#[test]
fn returns_configured_fee_points() {
    let points = vec![make_fee_point(100), make_fee_point(200)];
    let mut mock = MockHorizonClient::new().with_fees(points.clone());

    let result = mock.fetch_latest_fees().unwrap();
    assert_eq!(result.len(), 2);
    assert_eq!(result[0].fee_amount, 100);
    assert_eq!(result[1].fee_amount, 200);
}

#[test]
fn returns_empty_vec_by_default() {
    let mut mock = MockHorizonClient::new();
    let result = mock.fetch_latest_fees().unwrap();
    assert!(result.is_empty());
}

#[test]
fn returns_configured_error() {
    let mut mock = MockHorizonClient::new().with_error(ProviderError::NetworkError {
        message: "simulated timeout".into(),
    });

    let result = mock.fetch_latest_fees();
    assert!(result.is_err());
    assert!(matches!(
        result.unwrap_err(),
        ProviderError::NetworkError { .. }
    ));
}

#[test]
fn call_counter_increments_on_each_fetch() {
    let mut mock = MockHorizonClient::new();
    assert_eq!(mock.calls(), 0);

    mock.fetch_latest_fees().unwrap();
    assert_eq!(mock.calls(), 1);

    mock.fetch_latest_fees().unwrap();
    assert_eq!(mock.calls(), 2);
}

#[test]
fn call_counter_increments_even_on_error() {
    let mut mock = MockHorizonClient::new().with_error(ProviderError::ServiceUnavailable);

    let _ = mock.fetch_latest_fees();
    assert_eq!(mock.calls(), 1);
}

#[test]
fn health_check_succeeds_when_healthy() {
    let mock = MockHorizonClient::new().with_healthy(true);
    assert!(mock.health_check().is_ok());
}

#[test]
fn health_check_fails_when_unhealthy() {
    let mock = MockHorizonClient::new().with_healthy(false);
    let result = mock.health_check();
    assert!(matches!(
        result.unwrap_err(),
        ProviderError::ServiceUnavailable
    ));
}

#[test]
fn error_does_not_affect_health_check() {
    // fetch_latest_fees error and health_check are independent
    let mut mock = MockHorizonClient::new()
        .with_error(ProviderError::NetworkError {
            message: "down".into(),
        })
        .with_healthy(true);

    assert!(mock.health_check().is_ok());
    assert!(mock.fetch_latest_fees().is_err());
}

#[test]
fn provider_name_is_mock_horizon() {
    let mock = MockHorizonClient::new();
    assert_eq!(mock.provider_name(), "MockHorizon");
}

#[test]
fn metadata_reports_five_second_freshness() {
    let mock = MockHorizonClient::default();
    let meta = mock.get_metadata();
    assert_eq!(meta.data_freshness_seconds, 5);
    assert_eq!(meta.max_batch_size, 100);
    assert!(!meta.supports_historical);
    assert_eq!(meta.rate_limit_per_minute, None);
    let default = ProviderMetadata::default();
    assert_eq!(default.data_freshness_seconds, 60);
    assert_eq!(default.max_batch_size, 100);
}
