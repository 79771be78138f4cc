use chrono::{DateTime, TimeZone, Utc};
use pastebin::time::{MAX_UTC_SECS, MIN_UTC_SECS, RFC3339_MAX_SECS, RFC3339_MIN_SECS};
use pastebin::{parse_time_or_now, utc_now, UtcTime};

#[test]
fn representable_range_matches_chrono() {
    let cases: [(i64, u32); 10] = [
        (MAX_UTC_SECS, 999_999_999),
        (MAX_UTC_SECS + 1, 0),
        (MIN_UTC_SECS, 0),
        (MIN_UTC_SECS - 1, 0),
        (59, 1_500_000_000),
        (58, 1_500_000_000),
        (-1, 1_000_000_000),
        (-2, 1_000_000_000),
        (0, 2_000_000_000),
        (1_700_000_000, 123),
    ];
    for (secs, nanos) in cases {
        assert_eq!(
            UtcTime::from_timestamp(secs, nanos).is_some(),
            DateTime::from_timestamp(secs, nanos).is_some(),
            "{} {}",
            secs,
            nanos
        );
    }
}

#[test]
fn rfc3339_text_of_epoch() {
    let t = UtcTime::from_timestamp(0, 0).unwrap();
    assert_eq!(t.to_rfc3339(), "1970-01-01T00:00:00+00:00");
    let t = UtcTime::from_timestamp(1_431_648_000, 500_000_000).unwrap();
    assert_eq!(t.to_rfc3339(), "2015-05-15T00:00:00.500+00:00");
}

#[test]
fn rfc3339_parses_offsets_to_utc() {
    let t = UtcTime::parse_rfc3339("1996-12-19T16:39:57-08:00").unwrap();
    let expected = Utc.with_ymd_and_hms(1996, 12, 20, 0, 39, 57).unwrap();
    assert_eq!(t.timestamp(), expected.timestamp());
    assert_eq!(t.subsec_nanos(), 0);
    assert!(UtcTime::parse_rfc3339("yesterday").is_none());
}

#[test]
fn rfc3339_round_trip() {
    let t = UtcTime::from_timestamp(1_700_000_123, 456_789_000).unwrap();
    let back = UtcTime::parse_rfc3339(&t.to_rfc3339()).unwrap();
    assert_eq!((back.timestamp(), back.subsec_nanos()), (1_700_000_123, 456_789_000));
}

#[test]
fn minute_format() {
    let t = UtcTime::from_timestamp(1_431_648_000 + 3 * 3600 + 7 * 60 + 59, 0).unwrap();
    assert_eq!(t.format_minute(), "2015-05-15 03:07");
}

#[test]
fn ordering_and_adding_days() {
    let a = UtcTime::from_timestamp(100, 5).unwrap();
    let b = UtcTime::from_timestamp(100, 6).unwrap();
    let c = UtcTime::from_timestamp(101, 0).unwrap();
    assert!(a.is_before(&b) && b.is_before(&c) && a.is_before(&c));
    assert!(!b.is_before(&a) && !a.is_before(&a));
    let d = a.checked_add_days(2).unwrap();
    assert_eq!((d.timestamp(), d.subsec_nanos()), (100 + 2 * 86_400, 5));
    let late = UtcTime::from_timestamp(MAX_UTC_SECS - 86_399, 0).unwrap();
    assert!(late.checked_add_days(1).is_none());
    assert!(late.checked_add_days(0).is_some());
}

#[test]
fn now_agrees_with_chrono() {
    let before = Utc::now().timestamp();
    let now = utc_now();
    let after = Utc::now().timestamp();
    assert!(before <= now.timestamp() && now.timestamp() <= after);
    assert!(now.subsec_nanos() < 1_000_000_000);
}

#[test]
fn unreadable_time_falls_back_to_now() {
    let t = parse_time_or_now("2020-01-01T00:00:00Z");
    assert_eq!(t.timestamp(), 1_577_836_800);
    let before = Utc::now().timestamp();
    let t = parse_time_or_now("not a time");
    assert!(t.timestamp() >= before);
}

#[test]
fn four_digit_year_bounds_match_chrono() {
    let first = DateTime::from_timestamp(RFC3339_MIN_SECS, 0).unwrap();
    assert_eq!(first.to_rfc3339(), "0000-01-01T00:00:00+00:00");
    let last = DateTime::from_timestamp(RFC3339_MAX_SECS, 0).unwrap();
    assert_eq!(last.to_rfc3339(), "9999-12-31T23:59:59+00:00");
    assert!(DateTime::from_timestamp(RFC3339_MIN_SECS - 1, 0).unwrap().to_rfc3339().starts_with('-'));
    assert!(DateTime::from_timestamp(RFC3339_MAX_SECS + 1, 0).unwrap().to_rfc3339().starts_with('+'));
}

#[test]
fn rfc3339_round_trip_in_four_digit_years() {
    for (secs, nanos) in [
        (RFC3339_MIN_SECS, 0u32),
        (RFC3339_MAX_SECS, 999_999_999),
        (0, 1),
        (-1, 123_000_000),
        (59, 1_250_000_000),
        (1_700_000_000, 456_789),
    ] {
        let t = UtcTime::from_timestamp(secs, nanos).unwrap();
        let back = UtcTime::parse_rfc3339(&t.to_rfc3339()).unwrap();
        assert_eq!((back.timestamp(), back.subsec_nanos()), (secs, nanos));
    }
    let far = UtcTime::from_timestamp(RFC3339_MAX_SECS + 1, 0).unwrap();
    assert!(UtcTime::parse_rfc3339(&far.to_rfc3339()).is_none());
}
