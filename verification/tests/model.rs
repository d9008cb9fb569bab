//! The cached secret and its expiry.

use hemli::model::{SourceType, StoredSecret};
use hemli::time::Timestamp;

#[test]
fn no_ttl_never_expires() {
    let secret = StoredSecret::new("val".into(), None, None, None).unwrap();
    assert!(!secret.is_expired().unwrap());
    assert!(secret.expires_at.is_none());
    assert!(secret.ttl_seconds.is_none());
}

#[test]
fn future_ttl_not_expired() {
    let secret = StoredSecret::new("val".into(), None, None, Some(3600)).unwrap();
    assert!(!secret.is_expired().unwrap());
}

#[test]
fn past_ttl_is_expired() {
    let mut secret = StoredSecret::new("val".into(), None, None, Some(60)).unwrap();
    // Backdate the secret so it appears expired
    let past = Timestamp::now().unwrap().checked_add_seconds(-120).unwrap();
    secret.created_at = past;
    secret.expires_at = Some(past.checked_add_seconds(60).unwrap());
    assert!(secret.is_expired().unwrap());
}

#[test]
fn new_keeps_what_it_is_given() {
    let before = Timestamp::now().unwrap();
    let secret = StoredSecret::new(
        "my-secret".into(),
        Some("echo hi".into()),
        Some(SourceType::Sh),
        Some(3600),
    )
    .unwrap();
    let after = Timestamp::now().unwrap();
    assert_eq!(secret.value, "my-secret");
    assert_eq!(secret.source_command.as_deref(), Some("echo hi"));
    assert_eq!(secret.source_type, Some(SourceType::Sh));
    assert_eq!(secret.ttl_seconds, Some(3600));
    assert!(!before.is_after(&secret.created_at));
    assert!(!secret.created_at.is_after(&after));
    assert_eq!(
        secret.expires_at,
        Some(secret.created_at.checked_add_seconds(3600).unwrap())
    );
}

#[test]
fn new_at_derives_expiry_from_creation() {
    let created = Timestamp::from_second(1_736_937_000).unwrap();
    let secret = StoredSecret::new_at("v".into(), None, Some(SourceType::Cmd), Some(3600), created);
    assert_eq!(secret.created_at, created);
    assert_eq!(
        secret.expires_at,
        Some(Timestamp::from_second(1_736_940_600).unwrap())
    );
    assert_eq!(secret.source_type, Some(SourceType::Cmd));
    let negative = StoredSecret::new_at("v".into(), None, None, Some(-10), created);
    assert_eq!(
        negative.expires_at,
        Some(Timestamp::from_second(1_736_936_990).unwrap())
    );
    let without = StoredSecret::new_at("v".into(), None, None, None, created);
    assert_eq!(without.expires_at, None);
}

#[test]
fn expiry_is_strict() {
    let created = Timestamp::from_second(1000).unwrap();
    let secret = StoredSecret::new_at("v".into(), None, None, Some(60), created);
    let at_expiry = Timestamp::from_second(1060).unwrap();
    let one_nanosecond_later = Timestamp::from_nanosecond(1_060_000_000_001).unwrap();
    let one_second_later = Timestamp::from_second(1061).unwrap();
    assert!(!secret.is_expired_at(&created));
    assert!(!secret.is_expired_at(&at_expiry));
    assert!(secret.is_expired_at(&one_nanosecond_later));
    assert!(secret.is_expired_at(&one_second_later));
}

#[test]
fn without_ttl_not_expired_at_the_end_of_time() {
    let created = Timestamp::from_second(0).unwrap();
    let secret = StoredSecret::new_at("v".into(), None, None, None, created);
    let last = Timestamp::from_nanosecond(253_402_207_200_999_999_999).unwrap();
    assert!(!secret.is_expired_at(&last));
}

#[test]
fn zero_ttl_expires_with_the_next_instant() {
    let created = Timestamp::from_second(50).unwrap();
    let secret = StoredSecret::new_at("v".into(), None, None, Some(0), created);
    assert_eq!(secret.expires_at, Some(created));
    assert!(!secret.is_expired_at(&created));
    assert!(secret.is_expired_at(&Timestamp::from_nanosecond(50_000_000_001).unwrap()));
}

#[test]
fn recalculate_follows_ttl_and_creation() {
    let created = Timestamp::from_second(1000).unwrap();
    let mut secret = StoredSecret::new_at("v".into(), None, None, Some(60), created);
    secret.ttl_seconds = Some(10);
    secret.recalculate_expires_at();
    assert_eq!(secret.expires_at, Some(Timestamp::from_second(1010).unwrap()));
    secret.created_at = Timestamp::from_second(2000).unwrap();
    secret.recalculate_expires_at();
    assert_eq!(secret.expires_at, Some(Timestamp::from_second(2010).unwrap()));
    secret.ttl_seconds = None;
    secret.recalculate_expires_at();
    assert_eq!(secret.expires_at, None);
    assert_eq!(secret.value, "v");
}

#[test]
fn new_refuses_an_expiry_out_of_range() {
    assert!(StoredSecret::new("v".into(), None, None, Some(i64::MAX)).is_none());
    assert!(StoredSecret::new("v".into(), None, None, Some(i64::MIN)).is_none());
    let last = Timestamp::from_second(253_402_207_200).unwrap();
    assert!(StoredSecret::expiry_fits(&last, Some(0)));
    assert!(!StoredSecret::expiry_fits(&last, Some(1)));
    assert!(StoredSecret::expiry_fits(&last, None));
}

#[test]
fn expired_by_the_clock() {
    let long_ago = Timestamp::from_second(1_000_000).unwrap();
    let stale = StoredSecret::new_at("v".into(), None, None, Some(60), long_ago);
    assert_eq!(stale.is_expired(), Some(true));
    let far = Timestamp::from_second(253_402_207_000).unwrap();
    let fresh = StoredSecret::new_at("v".into(), None, None, Some(60), far);
    assert_eq!(fresh.is_expired(), Some(false));
    let forever = StoredSecret::new_at("v".into(), None, None, None, long_ago);
    assert_eq!(forever.is_expired(), Some(false));
}

#[test]
fn new_from_what_the_clock_gave() {
    let at = Timestamp::from_second(1000).unwrap();
    let made = StoredSecret::new_from(
        "v".into(),
        Some("echo v".into()),
        Some(SourceType::Sh),
        Some(60),
        Some(at),
    )
    .unwrap();
    assert_eq!(made.value, "v");
    assert_eq!(made.created_at, at);
    assert_eq!(made.source_command.as_deref(), Some("echo v"));
    assert_eq!(made.source_type, Some(SourceType::Sh));
    assert_eq!(made.ttl_seconds, Some(60));
    assert_eq!(made.expires_at, Some(Timestamp::from_second(1060).unwrap()));
    let plain = StoredSecret::new_from("v".into(), None, None, None, Some(at)).unwrap();
    assert_eq!(plain.expires_at, None);

    assert!(StoredSecret::new_from("v".into(), None, None, None, None).is_none());
    assert!(StoredSecret::new_from("v".into(), None, None, Some(60), None).is_none());
    let last = Timestamp::from_second(253_402_207_200).unwrap();
    assert!(StoredSecret::new_from("v".into(), None, None, Some(0), Some(last)).is_some());
    assert!(StoredSecret::new_from("v".into(), None, None, Some(1), Some(last)).is_none());
    assert!(StoredSecret::new_from("v".into(), None, None, Some(i64::MIN), Some(at)).is_none());
}
