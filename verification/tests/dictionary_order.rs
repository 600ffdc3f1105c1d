//! Dictionary semantics: insertion order, lookup, index-assignment.

use oxi_types::Dictionary;
use oxi_types::NvimString;
use oxi_types::Object;
use oxi_types::object::deep_eq;

#[test]
fn insertion_order_is_kept() {
    let mut d = Dictionary::new();
    d.insert(NvimString::from_str("a"), Object::Integer(1));
    d.insert(NvimString::from_str("b"), Object::Integer(2));
    d.insert(NvimString::from_str("c"), Object::Integer(3));
    assert_eq!(d.len(), 3);
    assert_eq!(d.get_pair(0).0.to_string_lossy(), "a");
    assert_eq!(d.get_pair(1).0.to_string_lossy(), "b");
    assert_eq!(d.get_pair(2).0.to_string_lossy(), "c");
}

#[test]
fn insertion_order_ignores_key_content() {
    // Keys that a hash map would scatter stay in insertion order here.
    let mut d = Dictionary::new();
    d.insert(NvimString::from_str("zzz"), Object::Nil);
    d.insert(NvimString::from_str(""), Object::Nil);
    d.insert(NvimString::from_bytes(vec![0xFF, 0x00]), Object::Nil);
    assert_eq!(d.get_pair(0).0.to_string_lossy(), "zzz");
    assert!(d.get_pair(1).0.is_empty());
    assert_eq!(d.get_pair(2).0.as_bytes().as_slice(), &[0xFF, 0x00]);
}

#[test]
fn insert_updates_first_match_in_place() {
    let mut d = Dictionary::new();
    d.insert(NvimString::from_str("a"), Object::Integer(1));
    d.insert(NvimString::from_str("b"), Object::Integer(2));
    d.insert(NvimString::from_str("a"), Object::Integer(99));
    assert_eq!(d.len(), 2);
    assert_eq!(d.get_pair(0).0.to_string_lossy(), "a");
    assert!(deep_eq(&d.get_pair(0).1, &Object::Integer(99)));
    assert!(deep_eq(&d.get_pair(1).1, &Object::Integer(2)));
}

#[test]
fn lookup_is_first_match_by_bytes() {
    let mut d = Dictionary::new();
    d.insert(NvimString::from_str("x"), Object::Integer(5));
    let hit = d.get(&NvimString::from_str("x")).expect("key must be found");
    assert!(deep_eq(hit, &Object::Integer(5)));
    assert!(d.get(&NvimString::from_str("y")).is_none());
    assert!(d.contains_key(&NvimString::from_str("x")));
    assert!(!d.contains_key(&NvimString::from_str("y")));
}

#[test]
fn duplicate_keys_from_vec_resolve_to_the_first() {
    let d = Dictionary::from_vec(vec![
        (NvimString::from_str("k"), Object::Integer(1)),
        (NvimString::from_str("k"), Object::Integer(2)),
    ]);
    let hit = d.get(&NvimString::from_str("k")).expect("key must be found");
    assert!(deep_eq(hit, &Object::Integer(1)));
}
