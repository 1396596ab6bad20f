//! The string-keyed map behind the registry and the pending-call table.

use erpc::strmap::StringMap;

#[test]
fn insert_get_and_contains() {
    let mut map: StringMap<u32> = StringMap::new();
    assert!(!map.contains_key("a"));
    map.insert("a".to_owned(), 1);
    map.insert("b".to_owned(), 2);
    assert!(map.contains_key("a"));
    assert_eq!(map.get("a"), Some(&1));
    assert_eq!(map.get("b"), Some(&2));
    assert_eq!(map.get("c"), None);
}

#[test]
fn insert_replaces_under_one_key() {
    let mut map: StringMap<u32> = StringMap::new();
    map.insert("k".to_owned(), 1);
    map.insert("k".to_owned(), 2);
    assert_eq!(map.get("k"), Some(&2));
}

#[test]
fn remove_takes_the_value_out_once() {
    let mut map: StringMap<u32> = StringMap::new();
    map.insert("k".to_owned(), 1);
    map.insert("l".to_owned(), 2);
    assert_eq!(map.remove("k"), Some(1));
    assert_eq!(map.remove("k"), None);
    assert!(!map.contains_key("k"));
    assert_eq!(map.get("l"), Some(&2));
}

#[test]
fn keys_are_compared_by_characters() {
    let mut map: StringMap<u32> = StringMap::new();
    map.insert("caf\u{e9}".to_owned(), 1);
    assert!(map.contains_key("café"));
    assert!(!map.contains_key("cafe"));
}
