//! Dynamic values: kinds, deep equality, deep copies, containers.

use oxi_types::Array;
use oxi_types::Dictionary;
use oxi_types::NvimString;
use oxi_types::Object;
use oxi_types::ObjectKind;
use oxi_types::object::deep_eq;

fn sample_array() -> Object {
    Object::Arr(Array::from_vec(vec![
        Object::Integer(1),
        Object::Str(NvimString::from_str("two")),
        Object::Nil,
    ]))
}

fn sample_dict() -> Object {
    let mut d = Dictionary::new();
    d.insert(NvimString::from_str("n"), Object::Integer(7));
    d.insert(NvimString::from_str("inner"), sample_array());
    Object::Dict(d)
}

#[test]
fn kinds_follow_variants() {
    assert_eq!(Object::Nil.kind(), ObjectKind::Nil);
    assert_eq!(Object::Boolean(true).kind(), ObjectKind::Boolean);
    assert_eq!(Object::Integer(-3).kind(), ObjectKind::Integer);
    assert_eq!(Object::Float { bits: 1.5f64.to_bits() }.kind(), ObjectKind::Float);
    assert_eq!(Object::Str(NvimString::new()).kind(), ObjectKind::Str);
    assert_eq!(Object::Arr(Array::new()).kind(), ObjectKind::Arr);
    assert_eq!(Object::Dict(Dictionary::new()).kind(), ObjectKind::Dict);
    assert_eq!(Object::Handle(4).kind(), ObjectKind::Handle);
    assert_eq!(Object::LuaRef(9).kind(), ObjectKind::LuaRef);
}

#[test]
fn deep_eq_on_equal_nested_values() {
    assert!(deep_eq(&sample_dict(), &sample_dict()));
    assert!(deep_eq(&sample_array(), &sample_array()));
    assert!(deep_eq(&Object::Nil, &Object::Nil));
}

#[test]
fn deep_eq_distinguishes_kinds_and_payloads() {
    assert!(!deep_eq(&Object::Nil, &Object::Boolean(false)));
    assert!(!deep_eq(&Object::Integer(1), &Object::Integer(2)));
    assert!(!deep_eq(&Object::Integer(1), &Object::Handle(1)));
    assert!(!deep_eq(&sample_array(), &sample_dict()));
    let longer = Object::Arr(Array::from_vec(vec![Object::Integer(1)]));
    let shorter = Object::Arr(Array::new());
    assert!(!deep_eq(&longer, &shorter));
}

#[test]
fn float_equality_is_bitwise() {
    let a = Object::Float { bits: 0.5f64.to_bits() };
    let b = Object::Float { bits: 0.5f64.to_bits() };
    let c = Object::Float { bits: (-0.5f64).to_bits() };
    assert!(deep_eq(&a, &b));
    assert!(!deep_eq(&a, &c));
}

#[test]
fn deep_clone_is_equal_and_independent() {
    let original = sample_dict();
    let copy = original.deep_clone();
    assert!(deep_eq(&original, &copy));
    drop(original);
    // The copy owns its data: it survives the original.
    assert!(deep_eq(&copy, &sample_dict()));
}

#[test]
fn array_preserves_order() {
    let mut a = Array::new();
    a.push(Object::Integer(10));
    a.push(Object::Integer(20));
    a.push(Object::Integer(30));
    assert_eq!(a.len(), 3);
    assert!(deep_eq(a.get(0), &Object::Integer(10)));
    assert!(deep_eq(a.get(1), &Object::Integer(20)));
    assert!(deep_eq(a.get(2), &Object::Integer(30)));
    assert!(a.try_get(3).is_none());
}

#[test]
fn string_grows_byte_by_byte() {
    let mut s = NvimString::new();
    s.push_byte(b'h');
    s.push_byte(b'i');
    assert_eq!(s.len(), 2);
    assert_eq!(s.to_string_lossy(), "hi");
}

#[test]
fn string_round_trips_bytes() {
    let s = NvimString::from_bytes(vec![0, 159, 146, 150]);
    assert_eq!(s.len(), 4);
    assert_eq!(s.as_bytes().as_slice(), &[0, 159, 146, 150]);
    let copy = s.deep_clone();
    assert!(copy.bytes_eq(&s));
    assert_eq!(s.into_bytes(), vec![0, 159, 146, 150]);
    drop(copy);
}

#[test]
fn string_lossy_decoding_replaces_invalid_bytes() {
    let valid = NvimString::from_str("héllo");
    assert_eq!(valid.to_string_lossy(), "héllo");
    let invalid = NvimString::from_bytes(vec![b'f', b'o', 0xFF]);
    assert_eq!(invalid.to_string_lossy(), "fo\u{FFFD}");
}

#[test]
fn empty_values() {
    assert!(NvimString::new().is_empty());
    assert!(Array::new().is_empty());
    assert!(Dictionary::new().is_empty());
    assert!(Object::Nil.is_nil());
    assert!(!Object::Boolean(false).is_nil());
}
