//! Instants.

use hemli::time::{Timestamp, MAX_NANOSECOND, MAX_SECOND, MIN_NANOSECOND, MIN_SECOND};

#[test]
fn from_second_counts_nanoseconds() {
    assert_eq!(Timestamp::from_second(0).unwrap().as_nanosecond(), 0);
    assert_eq!(
        Timestamp::from_second(1000).unwrap().as_nanosecond(),
        1_000_000_000_000
    );
    assert_eq!(
        Timestamp::from_second(-5).unwrap().as_nanosecond(),
        -5_000_000_000
    );
}

#[test]
fn range_is_closed_at_both_ends() {
    assert!(Timestamp::from_second(MIN_SECOND).is_some());
    assert!(Timestamp::from_second(MAX_SECOND).is_some());
    assert!(Timestamp::from_second(MIN_SECOND - 1).is_none());
    assert!(Timestamp::from_second(MAX_SECOND + 1).is_none());
    assert!(Timestamp::from_nanosecond(MIN_NANOSECOND).is_some());
    assert!(Timestamp::from_nanosecond(MAX_NANOSECOND).is_some());
    assert!(Timestamp::from_nanosecond(MIN_NANOSECOND - 1).is_none());
    assert!(Timestamp::from_nanosecond(MAX_NANOSECOND + 1).is_none());
    assert_eq!(MIN_NANOSECOND, -377_705_023_201_000_000_000);
    assert_eq!(MAX_NANOSECOND, 253_402_207_200_999_999_999);
}

#[test]
fn adding_seconds_is_exact() {
    let t = Timestamp::from_nanosecond(1_500_000_000).unwrap();
    assert_eq!(
        t.checked_add_seconds(2).unwrap().as_nanosecond(),
        3_500_000_000
    );
    assert_eq!(
        t.checked_add_seconds(-2).unwrap().as_nanosecond(),
        -500_000_000
    );
    assert_eq!(t.checked_add_seconds(0).unwrap(), t);
    let before_epoch = Timestamp::from_nanosecond(-1_500_000_000).unwrap();
    assert_eq!(
        before_epoch.checked_add_seconds(3).unwrap().as_nanosecond(),
        1_500_000_000
    );
}

#[test]
fn adding_seconds_stops_at_the_range() {
    let last_second = Timestamp::from_second(MAX_SECOND).unwrap();
    assert!(last_second.checked_add_seconds(1).is_none());
    let almost = Timestamp::from_second(MAX_SECOND - 1).unwrap();
    assert_eq!(almost.checked_add_seconds(1), Some(last_second));
    let end = Timestamp::from_nanosecond(MAX_NANOSECOND).unwrap();
    assert!(end.checked_add_seconds(1).is_none());
    assert_eq!(
        end.checked_add_seconds(-1).unwrap().as_nanosecond(),
        MAX_NANOSECOND - 1_000_000_000
    );
    let first = Timestamp::from_second(MIN_SECOND).unwrap();
    assert!(first.checked_add_seconds(-1).is_none());
    let just_inside = Timestamp::from_nanosecond(MIN_NANOSECOND + 1).unwrap();
    assert!(just_inside.checked_add_seconds(-1).is_none());
    assert!(first.checked_add_seconds(i64::MAX).is_none());
    assert!(first.checked_add_seconds(i64::MIN).is_none());
    assert_eq!(
        first.checked_add_seconds(MAX_SECOND - MIN_SECOND),
        Some(last_second)
    );
}

#[test]
fn later_is_strict() {
    let a = Timestamp::from_second(1).unwrap();
    let b = Timestamp::from_nanosecond(1_000_000_001).unwrap();
    assert!(b.is_after(&a));
    assert!(!a.is_after(&b));
    assert!(!a.is_after(&a));
}

#[test]
fn now_is_in_range() {
    let a = Timestamp::now().unwrap();
    assert!(a.as_nanosecond() >= MIN_NANOSECOND && a.as_nanosecond() <= MAX_NANOSECOND);
    assert!(a.is_after(&Timestamp::from_second(1_600_000_000).unwrap()));
}

#[test]
fn text_is_utc_date_and_time() {
    assert_eq!(Timestamp::from_second(0).unwrap().to_text(), "1970-01-01T00:00:00Z");
    assert_eq!(
        Timestamp::from_second(1_736_937_000).unwrap().to_text(),
        "2025-01-15T10:30:00Z"
    );
    assert_eq!(
        Timestamp::from_nanosecond(1_123_456_789_123_000_000).unwrap().to_text(),
        "2005-08-07T23:19:49.123Z"
    );
    assert_eq!(
        Timestamp::from_nanosecond(MAX_NANOSECOND).unwrap().to_text(),
        "9999-12-30T22:00:00.999999999Z"
    );
    assert_eq!(
        Timestamp::from_second(MIN_SECOND).unwrap().to_text(),
        "-009999-01-02T01:59:59Z"
    );
}
