use chrono::{DateTime, Duration, Utc};
use rusty_soap::cache::utils::{is_expired, is_expired_at, Timestamp};

fn stamp(t: DateTime<Utc>) -> Timestamp {
    Timestamp::new(t.timestamp(), t.timestamp_subsec_nanos())
}

#[test]
fn cache_test_timeout_is_none() {
    let res = is_expired(&stamp(Utc::now()), None);
    assert!(!res)
}

#[test]
fn cache_test_timeout_has_expired() {
    let timeout = 7200;
    let utcnow = Utc::now();
    let value = utcnow - Duration::seconds(timeout);
    let res = is_expired(&stamp(value), Some(timeout));
    assert!(res)
}

#[test]
fn cache_test_timeout_has_not_expired() {
    let timeout = 7200;
    let utcnow = Utc::now();
    let value = utcnow + Duration::seconds(timeout);
    let res = is_expired(&stamp(value), Some(timeout));
    assert!(!res)
}

#[test]
fn utils_test_timeout_is_none() {
    let res = is_expired(&stamp(Utc::now()), None);
    assert!(!res)
}

#[test]
fn utils_test_timeout_has_expired() {
    let timeout = 7200;
    let utcnow = Utc::now();
    let value = utcnow - Duration::seconds(timeout);
    let res = is_expired(&stamp(value), Some(timeout));
    assert!(res)
}

#[test]
fn utils_test_timeout_has_not_expired() {
    let timeout = 7200;
    let utcnow = Utc::now();
    let value = utcnow + Duration::seconds(timeout);
    let res = is_expired(&stamp(value), Some(timeout));
    assert!(!res)
}

#[test]
fn no_timeout_never_expires_even_far_later() {
    let created = Timestamp::new(0, 0);
    let now = Timestamp::new(i64::MAX, 999_999_999);
    assert!(!is_expired_at(&created, None, &now));
    assert!(!is_expired_at(&Timestamp::new(i64::MIN, 0), None, &now));
}

#[test]
fn expiry_boundaries() {
    let t = 7200;
    let now = Timestamp::new(1_700_000_000, 500);
    // created a second before now - t: stale
    let old = Timestamp::new(1_700_000_000 - t - 1, 500);
    assert!(is_expired_at(&old, Some(t), &now));
    // created exactly t before now: not yet past the deadline
    let edge = Timestamp::new(1_700_000_000 - t, 500);
    assert!(!is_expired_at(&edge, Some(t), &now));
    // one nanosecond past the deadline
    let later = Timestamp::new(1_700_000_000, 501);
    assert!(is_expired_at(&edge, Some(t), &later));
    // created t in the future
    let future = Timestamp::new(1_700_000_000 + t, 500);
    assert!(!is_expired_at(&future, Some(t), &now));
}

#[test]
fn expiry_extreme_values_do_not_overflow() {
    let created = Timestamp::new(i64::MAX, 999_999_999);
    let now = Timestamp::new(i64::MIN, 0);
    assert!(!is_expired_at(&created, Some(i64::MAX), &now));
    assert!(is_expired_at(&now, Some(i64::MIN), &created));
}
