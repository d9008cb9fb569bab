//! The listing index.

use hemli::index::{
    filter_entries, list_line, remove_entry, upsert_entry, IndexEntry, SecretIndex,
};
use hemli::time::Timestamp;

fn keys(index: &SecretIndex) -> Vec<(String, String)> {
    index
        .entries
        .iter()
        .map(|e| (e.namespace.clone(), e.secret.clone()))
        .collect()
}

fn pair(namespace: &str, secret: &str) -> (String, String) {
    (namespace.to_string(), secret.to_string())
}

#[test]
fn upsert_replaces_existing() {
    let mut index = SecretIndex::default();
    let t1 = Timestamp::from_second(1000).unwrap();
    let t2 = Timestamp::from_second(2000).unwrap();
    upsert_entry(&mut index, "ns", "sec", t1);
    upsert_entry(&mut index, "ns", "sec", t2);
    assert_eq!(index.entries.len(), 1);
    assert_eq!(index.entries[0].created_at, t2);
}

#[test]
fn upsert_adds_different_entries() {
    let mut index = SecretIndex::default();
    let t = Timestamp::now().unwrap();
    upsert_entry(&mut index, "ns1", "sec1", t);
    upsert_entry(&mut index, "ns2", "sec2", t);
    assert_eq!(index.entries.len(), 2);
}

#[test]
fn remove_entry_works() {
    let mut index = SecretIndex::default();
    let t = Timestamp::now().unwrap();
    upsert_entry(&mut index, "ns", "sec1", t);
    upsert_entry(&mut index, "ns", "sec2", t);
    remove_entry(&mut index, "ns", "sec1");
    assert_eq!(index.entries.len(), 1);
    assert_eq!(index.entries[0].secret, "sec2");
}

#[test]
fn remove_nonexistent_is_noop() {
    let mut index = SecretIndex::default();
    remove_entry(&mut index, "ns", "sec");
    assert!(index.entries.is_empty());
}

#[test]
fn filter_by_namespace() {
    let mut index = SecretIndex::default();
    let t = Timestamp::now().unwrap();
    upsert_entry(&mut index, "ns1", "sec1", t);
    upsert_entry(&mut index, "ns2", "sec2", t);
    upsert_entry(&mut index, "ns1", "sec3", t);

    let filtered = filter_entries(&index, Some("ns1"));
    assert_eq!(filtered.len(), 2);
    assert!(filtered.iter().all(|e| e.namespace == "ns1"));
}

#[test]
fn filter_no_namespace_returns_all() {
    let mut index = SecretIndex::default();
    let t = Timestamp::now().unwrap();
    upsert_entry(&mut index, "ns1", "sec1", t);
    upsert_entry(&mut index, "ns2", "sec2", t);

    let filtered = filter_entries(&index, None);
    assert_eq!(filtered.len(), 2);
}

#[test]
fn new_index_is_empty() {
    assert!(SecretIndex::new().entries.is_empty());
    assert!(SecretIndex::default().entries.is_empty());
}

#[test]
fn upsert_keeps_the_place_of_the_entry() {
    let mut index = SecretIndex::new();
    let t1 = Timestamp::from_second(10).unwrap();
    let t2 = Timestamp::from_second(20).unwrap();
    upsert_entry(&mut index, "a", "x", t1);
    upsert_entry(&mut index, "b", "y", t1);
    upsert_entry(&mut index, "a", "z", t1);
    upsert_entry(&mut index, "b", "y", t2);
    assert_eq!(keys(&index), vec![pair("a", "x"), pair("b", "y"), pair("a", "z")]);
    assert_eq!(index.entries[0].created_at, t1);
    assert_eq!(index.entries[1].created_at, t2);
    assert_eq!(index.entries[2].created_at, t1);
}

#[test]
fn upsert_twice_equals_upsert_once_with_the_later_time() {
    let t0 = Timestamp::from_second(1).unwrap();
    let t1 = Timestamp::from_second(2).unwrap();
    let t2 = Timestamp::from_second(3).unwrap();
    let mut twice = SecretIndex::new();
    let mut once = SecretIndex::new();
    upsert_entry(&mut twice, "other", "s", t0);
    upsert_entry(&mut once, "other", "s", t0);
    upsert_entry(&mut twice, "ns", "sec", t1);
    upsert_entry(&mut twice, "ns", "sec", t2);
    upsert_entry(&mut once, "ns", "sec", t2);
    assert_eq!(keys(&twice), keys(&once));
    assert_eq!(twice.entries[1].created_at, once.entries[1].created_at);
    let matching = twice
        .entries
        .iter()
        .filter(|e| e.namespace == "ns" && e.secret == "sec")
        .count();
    assert_eq!(matching, 1);
}

#[test]
fn upsert_needs_both_parts_of_the_key_to_match() {
    let t = Timestamp::from_second(5).unwrap();
    let mut index = SecretIndex::new();
    upsert_entry(&mut index, "ns", "sec", t);
    upsert_entry(&mut index, "ns", "other", t);
    upsert_entry(&mut index, "other", "sec", t);
    assert_eq!(index.entries.len(), 3);
}

#[test]
fn upsert_into_index_with_duplicates_moves_the_first_only() {
    let t1 = Timestamp::from_second(1).unwrap();
    let t2 = Timestamp::from_second(2).unwrap();
    let entry = |t| IndexEntry {
        namespace: "ns".to_string(),
        secret: "sec".to_string(),
        created_at: t,
    };
    let mut index = SecretIndex {
        entries: vec![entry(t1), entry(t1)],
    };
    upsert_entry(&mut index, "ns", "sec", t2);
    assert_eq!(index.entries.len(), 2);
    assert_eq!(index.entries[0].created_at, t2);
    assert_eq!(index.entries[1].created_at, t1);
}

#[test]
fn remove_takes_every_entry_of_the_key_and_keeps_order() {
    let t = Timestamp::from_second(1).unwrap();
    let entry = |ns: &str, s: &str| IndexEntry {
        namespace: ns.to_string(),
        secret: s.to_string(),
        created_at: t,
    };
    let mut index = SecretIndex {
        entries: vec![
            entry("ns", "sec"),
            entry("a", "1"),
            entry("ns", "sec"),
            entry("ns", "keep"),
            entry("b", "sec"),
            entry("ns", "sec"),
        ],
    };
    remove_entry(&mut index, "ns", "sec");
    assert_eq!(
        keys(&index),
        vec![pair("a", "1"), pair("ns", "keep"), pair("b", "sec")]
    );
}

#[test]
fn filter_keeps_insertion_order() {
    let t = Timestamp::from_second(1).unwrap();
    let mut index = SecretIndex::new();
    upsert_entry(&mut index, "z", "3", t);
    upsert_entry(&mut index, "a", "1", t);
    upsert_entry(&mut index, "z", "1", t);
    upsert_entry(&mut index, "a", "0", t);
    let all: Vec<&str> = filter_entries(&index, None)
        .iter()
        .map(|e| e.secret.as_str())
        .collect();
    assert_eq!(all, vec!["3", "1", "1", "0"]);
    let z: Vec<&str> = filter_entries(&index, Some("z"))
        .iter()
        .map(|e| e.secret.as_str())
        .collect();
    assert_eq!(z, vec!["3", "1"]);
    assert!(filter_entries(&index, Some("none")).is_empty());
    assert!(filter_entries(&index, Some("")).is_empty());
}

#[test]
fn list_line_is_tab_separated() {
    let entry = IndexEntry {
        namespace: "prod".to_string(),
        secret: "db-pass".to_string(),
        created_at: Timestamp::from_second(1_736_937_000).unwrap(),
    };
    assert_eq!(list_line(&entry), "prod\tdb-pass\t2025-01-15T10:30:00Z");
}
