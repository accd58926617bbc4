use stellar_fees::middleware::auth::{check_api_key, constant_time_eq, AuthDecision};

#[test]
fn constant_time_eq_checks_full_input() {
    assert!(constant_time_eq(b"abc", b"abc"));
    assert!(!constant_time_eq(b"abc", b"abd"));
    assert!(!constant_time_eq(b"abc", b"ab"));
}

#[test]
fn constant_time_eq_edge_cases() {
    assert!(constant_time_eq(b"", b""));
    assert!(!constant_time_eq(b"", b"\0"));
    assert!(!constant_time_eq(b"ab\0", b"ab"));
}

#[test]
fn no_configured_key_allows_any_request() {
    assert_eq!(check_api_key(None, None), AuthDecision::Allow);
    assert_eq!(check_api_key(None, Some(&[0xff][..])), AuthDecision::Allow);
}

#[test]
fn correct_key_is_allowed() {
    assert_eq!(check_api_key(Some("secret"), Some(&b"secret"[..])), AuthDecision::Allow);
    assert_eq!(AuthDecision::Allow.rejection(), None);
}

#[test]
fn missing_or_wrong_key_is_unauthorized() {
    let missing = check_api_key(Some("secret"), None);
    assert_eq!(missing, AuthDecision::Unauthorized);
    assert_eq!(
        missing.rejection(),
        Some((401, "Unauthorized: missing or invalid API key"))
    );
    assert_eq!(
        check_api_key(Some("secret"), Some(&b"wrong"[..])),
        AuthDecision::Unauthorized
    );
}

#[test]
fn invalid_header_bytes_are_forbidden() {
    let d = check_api_key(Some("secret"), Some(&[0xff, 0xfe][..]));
    assert_eq!(d, AuthDecision::Forbidden);
    assert_eq!(d.rejection(), Some((403, "Forbidden: invalid API key format")));
    assert_eq!(check_api_key(Some("secret"), Some(&b""[..])), AuthDecision::Forbidden);
}
