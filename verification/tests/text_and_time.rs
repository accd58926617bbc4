use stellar_fees::insights::config::{default_time_windows, AverageConfig, ExtremesConfig};
use stellar_fees::text::{chars_of, parse_unsigned_chars, string_from_chars, trim_chars};
use stellar_fees::timestamp::UtcTimestamp;

#[test]
fn unsigned_parsing_follows_str_parse() {
    let p = |s: &str, max: u64| parse_unsigned_chars(&chars_of(s), max);
    assert_eq!(p("12", 100), Some(12));
    assert_eq!(p("+7", 100), Some(7));
    assert_eq!(p("101", 100), None);
    assert_eq!(p("", 100), None);
    assert_eq!(p("+", 100), None);
    assert_eq!(p("-1", 100), None);
    assert_eq!(p("1a", 100), None);
    assert_eq!(p("18446744073709551615", u64::MAX), Some(u64::MAX));
    assert_eq!(p("18446744073709551616", u64::MAX), None);
    assert_eq!(p("007", 100), Some(7));
}

#[test]
fn trimming_removes_unicode_whitespace() {
    let t = trim_chars(&chars_of("\u{3000} a b\n\t"));
    assert_eq!(string_from_chars(&t), "a b");
    assert_eq!(string_from_chars(&trim_chars(&chars_of("   "))), "");
}

#[test]
fn timestamps_cover_chrono_range() {
    assert!(UtcTimestamp::new(0, 0).is_some());
    assert!(UtcTimestamp::new(0, 1_000_000_000).is_none());
    assert!(UtcTimestamp::new(59, 1_500_000_000).is_some());
    assert!(UtcTimestamp::new(-1, 1_999_999_999).is_some());
    assert!(UtcTimestamp::new(8210266876799, 0).is_some());
    assert!(UtcTimestamp::new(8210266876800, 0).is_none());
    assert!(UtcTimestamp::new(-8334601228800, 0).is_some());
    assert!(UtcTimestamp::new(-8334601228801, 0).is_none());
    let t = UtcTimestamp::new(-5, 7).unwrap();
    assert_eq!((t.seconds(), t.subsec_nanos()), (-5, 7));
    assert!(t.is_at_or_after(&UtcTimestamp::new(-5, 6).unwrap()));
    assert!(!t.is_at_or_after(&UtcTimestamp::new(-4, 0).unwrap()));
}

#[test]
fn chrono_agrees_on_the_timestamp_range() {
    for (s, n) in [(8210266876799i64, 0u32), (-8334601228800, 0), (59, 1_500_000_000), (-1, 1_999_999_999)] {
        assert!(chrono::DateTime::from_timestamp(s, n).is_some());
        assert_eq!(UtcTimestamp::new(s, n).unwrap().http_date().is_empty(), false);
    }
    for (s, n) in [(8210266876800i64, 0u32), (-8334601228801, 0), (58, 1_500_000_000)] {
        assert!(chrono::DateTime::from_timestamp(s, n).is_none());
        assert!(UtcTimestamp::new(s, n).is_none());
    }
}

#[test]
fn http_date_formats_known_instant() {
    let t = UtcTimestamp::new(784111777, 0).unwrap();
    assert_eq!(t.http_date(), "Sun, 06 Nov 1994 08:49:37 GMT");
}

#[test]
fn insights_defaults() {
    let w = default_time_windows();
    assert_eq!(w.len(), 3);
    assert_eq!((w[0].name.as_str(), w[0].duration, w[0].min_samples), ("short_term", 3600, 10));
    assert_eq!((w[1].name.as_str(), w[1].duration, w[1].min_samples), ("medium_term", 21600, 30));
    assert_eq!((w[2].name.as_str(), w[2].duration, w[2].min_samples), ("long_term", 86400, 100));
    let a = AverageConfig::default();
    assert_eq!((a.max_buffer_size, a.min_samples_for_calculation), (10000, 5));
    let e = ExtremesConfig::default();
    assert_eq!((e.tracking_period, e.historical_periods_to_keep), (86400, 30));
}
