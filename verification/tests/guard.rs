use bridge_program::guard::{is_expired, EXPIRY_WINDOW};

#[test]
fn expiry_window_is_ten_minutes() {
    assert_eq!(EXPIRY_WINDOW, 600);
}

#[test]
fn message_expires_at_exactly_the_window() {
    assert!(is_expired(1_000, 1_600));
    assert!(!is_expired(1_000, 1_599));
    assert!(is_expired(1_000, 1_601));
    assert!(!is_expired(1_000, 1_000));
}

#[test]
fn future_timestamp_is_not_expired() {
    assert!(!is_expired(2_000, 1_000));
    assert!(!is_expired(i64::MAX, 0));
}

#[test]
fn expiry_does_not_overflow_at_the_extremes() {
    assert!(is_expired(i64::MIN, i64::MAX));
    assert!(is_expired(i64::MIN, 0));
    assert!(is_expired(-1, i64::MAX));
    assert!(!is_expired(i64::MAX, i64::MIN));
    assert!(!is_expired(0, i64::MIN));
    assert!(is_expired(i64::MAX - 600, i64::MAX));
    assert!(!is_expired(i64::MAX - 599, i64::MAX));
    assert!(is_expired(i64::MIN, i64::MIN + 600));
    assert!(!is_expired(i64::MIN, i64::MIN + 599));
}

#[test]
fn expired_message_stays_expired() {
    let stamp = 5_000;
    let mut was_expired = false;
    for now in 5_590..5_620 {
        let expired = is_expired(stamp, now);
        assert!(expired || !was_expired);
        was_expired = expired;
    }
    assert!(was_expired);
}
