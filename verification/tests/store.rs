use chrono::{DateTime, Duration, Utc};
use stellar_fees::insights::types::FeeDataPoint;
use stellar_fees::store::FeeHistoryStore;
use stellar_fees::timestamp::UtcTimestamp;

fn instant(dt: DateTime<Utc>) -> UtcTimestamp {
    UtcTimestamp::new(dt.timestamp(), dt.timestamp_subsec_nanos()).unwrap()
}

fn make_point(fee_amount: u64, minutes_ago: i64) -> FeeDataPoint {
    FeeDataPoint {
        fee_amount,
        timestamp: instant(Utc::now() - Duration::minutes(minutes_ago)),
        transaction_hash: format!("hash_{}", fee_amount),
        ledger_sequence: fee_amount,
    }
}

// ---- push / capacity ----

#[test]
fn push_adds_point_to_store() {
    let mut store = FeeHistoryStore::new(10);
    store.push(make_point(100, 1));
    assert_eq!(store.len(), 1);
}

#[test]
fn push_evicts_oldest_when_at_capacity() {
    let mut store = FeeHistoryStore::new(3);
    store.push(make_point(100, 3)); // oldest
    store.push(make_point(200, 2));
    store.push(make_point(300, 1));
    // store is now full — next push evicts 100
    store.push(make_point(400, 0));

    assert_eq!(store.len(), 3);
    let all = store.get_last_n(10);
    assert_eq!(all[0].fee_amount, 200); // 100 was evicted
    assert_eq!(all[2].fee_amount, 400);
}

#[test]
fn push_exactly_at_capacity_does_not_evict() {
    let mut store = FeeHistoryStore::new(3);
    store.push(make_point(1, 2));
    store.push(make_point(2, 1));
    store.push(make_point(3, 0));
    assert_eq!(store.len(), 3);
}

// ---- is_empty / clear ----

#[test]
fn new_store_is_empty() {
    let store = FeeHistoryStore::new(10);
    assert!(store.is_empty());
    assert_eq!(store.len(), 0);
}

#[test]
fn clear_empties_the_store() {
    let mut store = FeeHistoryStore::new(10);
    store.push(make_point(100, 1));
    store.push(make_point(200, 0));
    store.clear();
    assert!(store.is_empty());
    assert_eq!(store.len(), 0);
}

// ---- get_since ----

#[test]
fn get_since_returns_points_on_or_after_cutoff() {
    let mut store = FeeHistoryStore::new(10);
    store.push(make_point(100, 60)); // 60 min ago
    store.push(make_point(200, 30)); // 30 min ago
    store.push(make_point(300, 5)); // 5 min ago

    let cutoff = instant(Utc::now() - Duration::minutes(31));
    let result = store.get_since(cutoff);

    assert_eq!(result.len(), 2);
    assert_eq!(result[0].fee_amount, 200);
    assert_eq!(result[1].fee_amount, 300);
}

#[test]
fn get_since_returns_empty_when_all_points_are_before_cutoff() {
    let mut store = FeeHistoryStore::new(10);
    store.push(make_point(100, 120));

    let cutoff = instant(Utc::now() - Duration::minutes(60));
    assert!(store.get_since(cutoff).is_empty());
}

#[test]
fn get_since_returns_all_when_all_points_are_after_cutoff() {
    let mut store = FeeHistoryStore::new(10);
    store.push(make_point(100, 5));
    store.push(make_point(200, 2));

    let cutoff = instant(Utc::now() - Duration::hours(1));
    assert_eq!(store.get_since(cutoff).len(), 2);
}

// ---- get_last_n ----

#[test]
fn get_last_n_returns_n_most_recent() {
    let mut store = FeeHistoryStore::new(10);
    for i in 1..=5 {
        store.push(make_point(i * 100, (6 - i) as i64));
    }

    let result = store.get_last_n(3);
    assert_eq!(result.len(), 3);
    assert_eq!(result[0].fee_amount, 300);
    assert_eq!(result[1].fee_amount, 400);
    assert_eq!(result[2].fee_amount, 500);
}

#[test]
fn get_last_n_returns_all_when_n_exceeds_store_size() {
    let mut store = FeeHistoryStore::new(10);
    store.push(make_point(100, 2));
    store.push(make_point(200, 1));

    let result = store.get_last_n(100);
    assert_eq!(result.len(), 2);
}

#[test]
fn get_last_n_zero_returns_empty() {
    let mut store = FeeHistoryStore::new(10);
    store.push(make_point(100, 1));
    assert!(store.get_last_n(0).is_empty());
}

#[test]
fn get_last_n_on_empty_store_returns_empty() {
    let store = FeeHistoryStore::new(10);
    assert!(store.get_last_n(5).is_empty());
}

// ---- further cases ----

#[test]
fn zero_capacity_store_keeps_only_the_newest_point() {
    let mut store = FeeHistoryStore::new(0);
    store.push(make_point(1, 1));
    store.push(make_point(2, 0));
    assert_eq!(store.len(), 1);
    assert_eq!(store.get_last_n(1)[0].fee_amount, 2);
}

#[test]
fn newest_point_is_the_last_pushed() {
    let mut store = FeeHistoryStore::new(2);
    for i in 0..7u64 {
        store.push(make_point(i, 0));
        let last = store.get_last_n(1);
        assert_eq!(last.len(), 1);
        assert_eq!(last[0].fee_amount, i);
        assert!(store.len() <= 2);
    }
    let all = store.get_last_n(2);
    assert_eq!(all[0].fee_amount, 5);
    assert_eq!(all[1].fee_amount, 6);
}

#[test]
fn get_since_includes_points_at_the_cutoff_instant() {
    let t = UtcTimestamp::new(1_700_000_000, 500).unwrap();
    let mut store = FeeHistoryStore::new(4);
    let mut p = make_point(7, 0);
    p.timestamp = t;
    store.push(p.clone());
    let mut q = make_point(8, 0);
    q.timestamp = UtcTimestamp::new(1_700_000_000, 499).unwrap();
    store.push(q);
    let got = store.get_since(t);
    assert_eq!(got.len(), 1);
    assert_eq!(got[0].fee_amount, 7);
    assert_eq!(got[0].transaction_hash, "hash_7");
}
