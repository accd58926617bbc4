use stellar_fees::alerts::webhook::{
    DeliveryAttempts, DeliveryStep, SendOutcome, WebhookError, MAX_ATTEMPTS, RETRY_DELAY_SECONDS,
};

#[test]
fn success_on_first_attempt_is_delivered() {
    let mut d = DeliveryAttempts::new();
    assert!(matches!(d.record(SendOutcome::Answered(200)), DeliveryStep::Delivered));
}

#[test]
fn non_2xx_is_retried_then_given_up() {
    let mut d = DeliveryAttempts::new();
    assert!(matches!(
        d.record(SendOutcome::Answered(500)),
        DeliveryStep::RetryAfter(RETRY_DELAY_SECONDS)
    ));
    match d.record(SendOutcome::Answered(503)) {
        DeliveryStep::GiveUp(WebhookError::Status(code)) => assert_eq!(code, 503),
        other => panic!("unexpected step: {:?}", other),
    }
    assert_eq!(MAX_ATTEMPTS, 2);
}

#[test]
fn transport_failure_then_success_is_delivered() {
    let mut d = DeliveryAttempts::new();
    assert!(matches!(
        d.record(SendOutcome::Failed("connection refused".into())),
        DeliveryStep::RetryAfter(2)
    ));
    assert!(matches!(d.record(SendOutcome::Answered(204)), DeliveryStep::Delivered));
}

#[test]
fn last_transport_failure_is_reported() {
    let mut d = DeliveryAttempts::new();
    let _ = d.record(SendOutcome::Answered(404));
    match d.record(SendOutcome::Failed("timeout".into())) {
        DeliveryStep::GiveUp(e) => assert_eq!(e.message(), "request failed: timeout"),
        other => panic!("unexpected step: {:?}", other),
    }
}

#[test]
fn webhook_error_messages() {
    assert_eq!(WebhookError::Status(500).message(), "unexpected HTTP status: 500");
    assert_eq!(WebhookError::Request("x".into()).message(), "request failed: x");
}
