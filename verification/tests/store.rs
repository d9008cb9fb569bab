//! Addressing in the credential store.

use hemli::error::HemliError;
use hemli::store::{delete_outcome, lookup_outcome, service_name, StoreReply};

#[test]
fn service_name_format() {
    assert_eq!(service_name("myapp"), "hemli:myapp");
    assert_eq!(service_name("prod"), "hemli:prod");
}

#[test]
fn service_name_keeps_namespace_as_it_is() {
    assert_eq!(service_name(""), "hemli:");
    assert_eq!(service_name("a:b c"), "hemli:a:b c");
    assert_ne!(service_name("prod"), service_name("prod "));
}

#[test]
fn missing_entry_is_an_answer() {
    assert_eq!(
        lookup_outcome(StoreReply::Entry("{}".to_string())),
        Ok(Some("{}".to_string()))
    );
    assert_eq!(lookup_outcome(StoreReply::NoEntry), Ok(None));
    assert_eq!(
        lookup_outcome(StoreReply::Failed("locked".to_string())),
        Err(HemliError::Keyring("locked".to_string()))
    );
    assert_eq!(delete_outcome(StoreReply::Entry(String::new())), Ok(()));
    assert_eq!(delete_outcome(StoreReply::NoEntry), Ok(()));
    assert_eq!(
        delete_outcome(StoreReply::Failed("locked".to_string())),
        Err(HemliError::Keyring("locked".to_string()))
    );
}
