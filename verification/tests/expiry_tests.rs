use pastebin::time::MAX_UTC_SECS;
use pastebin::{expires_at_after, expires_at_from_option, expiry_days_for, is_expired, utc_now, UtcTime};

#[test]
fn days_per_option() {
    assert_eq!(expiry_days_for("1d"), 1);
    assert_eq!(expiry_days_for("1w"), 7);
    assert_eq!(expiry_days_for("1m"), 30);
    assert_eq!(expiry_days_for("never"), 3650);
    assert_eq!(expiry_days_for("2y"), 1);
    assert_eq!(expiry_days_for(""), 1);
    assert_eq!(expiry_days_for("1D"), 1);
}

#[test]
fn expiry_counts_from_now() {
    let now = UtcTime::from_timestamp(1_000_000, 42).unwrap();
    let t = expires_at_after("1w", &now).unwrap();
    assert_eq!((t.timestamp(), t.subsec_nanos()), (1_000_000 + 7 * 86_400, 42));
    let t = expires_at_after("never", &now).unwrap();
    assert_eq!(t.timestamp(), 1_000_000 + 3650 * 86_400);
    let t = expires_at_after("bogus", &now).unwrap();
    assert_eq!(t.timestamp(), 1_000_000 + 86_400);
}

#[test]
fn expiry_beyond_range_is_none() {
    let now = UtcTime::from_timestamp(MAX_UTC_SECS - 86_400, 0).unwrap();
    assert!(expires_at_after("1d", &now).is_some());
    assert!(expires_at_after("1w", &now).is_none());
}

#[test]
fn fresh_paste_is_not_expired() {
    let now = utc_now();
    for opt in ["1d", "1w", "1m", "never", "x"] {
        let t = expires_at_after(opt, &now).unwrap();
        assert!(!is_expired(&t, &now));
        assert!(is_expired(&now, &t));
    }
    let t = expires_at_from_option("1d").unwrap();
    let later = utc_now();
    assert!(!is_expired(&t, &later));
    assert!(t.timestamp() - later.timestamp() <= 86_400);
}
