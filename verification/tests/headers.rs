use stellar_fees::api::headers::{
    cache_control, cache_control_string, compute_etag, format_etag, if_none_match_matches,
    last_modified,
};
use stellar_fees::timestamp::UtcTimestamp;

#[test]
fn etag_is_quoted() {
    let etag = compute_etag(br#"{"ok":true}"#);
    assert!(etag.starts_with('"'));
    assert!(etag.ends_with('"'));
}

#[test]
fn if_none_match_matches_exact_tag() {
    let header: &[u8] = b"\"abc\"";

    assert!(if_none_match_matches(Some(header), "\"abc\""));
    assert!(!if_none_match_matches(Some(header), "\"def\""));
}

#[test]
fn if_none_match_accepts_wildcard_and_lists() {
    assert!(if_none_match_matches(Some(&b"*"[..]), "\"abc\""));
    assert!(if_none_match_matches(Some(&b"\"x\" , \"abc\""[..]), "\"abc\""));
    assert!(!if_none_match_matches(None, "\"abc\""));
    assert!(!if_none_match_matches(Some(&[0xff, b'*'][..]), "\"abc\""));
}

#[test]
fn etag_is_lowercase_hex_of_the_hash() {
    assert_eq!(format_etag(0), "\"0\"");
    assert_eq!(format_etag(0x1f), "\"1f\"");
    assert_eq!(format_etag(u64::MAX), "\"ffffffffffffffff\"");
}

#[test]
fn etag_is_stable_for_equal_bodies() {
    assert_eq!(compute_etag(b"abc"), compute_etag(b"abc"));
    assert_ne!(compute_etag(b"abc"), compute_etag(b"abd"));
    assert_ne!(compute_etag(b"abc"), "\"abc\"");
}

#[test]
fn cache_control_text_lists_both_directives() {
    assert_eq!(cache_control_string(60, 30), "max-age=60, stale-while-revalidate=30");
    assert_eq!(
        cache_control(5, 0).to_str().unwrap(),
        "max-age=5, stale-while-revalidate=0"
    );
}

#[test]
fn last_modified_is_an_http_date() {
    let ts = UtcTimestamp::new(784111777, 0).unwrap();
    assert_eq!(last_modified(ts).to_str().unwrap(), "Sun, 06 Nov 1994 08:49:37 GMT");
    assert_eq!(last_modified(ts).as_bytes(), b"Sun, 06 Nov 1994 08:49:37 GMT");
    assert_eq!(cache_control(60, 30).as_bytes(), b"max-age=60, stale-while-revalidate=30");
}
