//! Conversions between typed values and dynamic values.

use oxi_types::Array;
use oxi_types::ConversionError;
use oxi_types::Dictionary;
use oxi_types::FromObject;
use oxi_types::NvimString;
use oxi_types::Object;
use oxi_types::ObjectKind;
use oxi_types::Position;
use oxi_types::ToObject;
use oxi_types::conversion::optional_field;
use oxi_types::conversion::required_field;
use oxi_types::object::deep_eq;

#[test]
fn round_trip_primitives() {
    let b = bool::from_object(true.to_object().unwrap()).unwrap();
    assert!(b);
    let i = i64::from_object((-41i64).to_object().unwrap()).unwrap();
    assert_eq!(i, -41);
    let u = usize::from_object(7usize.to_object().unwrap()).unwrap();
    assert_eq!(u, 7);
}

#[test]
fn round_trip_strings() {
    let s = NvimString::from_object(NvimString::from_str("abc").to_object().unwrap()).unwrap();
    assert_eq!(s.to_string_lossy(), "abc");
    let host = String::from_object(String::from("héllo").to_object().unwrap()).unwrap();
    assert_eq!(host, "héllo");
}

#[test]
fn round_trip_containers() {
    let arr = Array::from_vec(vec![Object::Integer(1), Object::Nil]);
    let back = Array::from_object(arr.to_object().unwrap()).unwrap();
    assert_eq!(back.len(), 2);
    assert!(deep_eq(back.get(0), &Object::Integer(1)));

    let mut d = Dictionary::new();
    d.insert(NvimString::from_str("k"), Object::Boolean(true));
    let back = Dictionary::from_object(d.to_object().unwrap()).unwrap();
    assert_eq!(back.len(), 1);

    let v: Vec<i64> = vec![3, 1, 2];
    let back: Vec<i64> = Vec::from_object(v.to_object().unwrap()).unwrap();
    assert_eq!(back, vec![3, 1, 2]);

    let o: Option<i64> = Some(5);
    let back: Option<i64> = Option::from_object(o.to_object().unwrap()).unwrap();
    assert_eq!(back, Some(5));
    let none: Option<i64> = Option::from_object(None::<i64>.to_object().unwrap()).unwrap();
    assert_eq!(none, None);
}

#[test]
fn kind_mismatch_names_both_kinds() {
    let err = i64::from_object(Object::Str(NvimString::from_str("nope"))).unwrap_err();
    match err {
        ConversionError::WrongKind { expected, actual } => {
            assert_eq!(expected, ObjectKind::Integer);
            assert_eq!(actual, ObjectKind::Str);
        },
        other => panic!("expected a wrong-kind failure, got {other:?}"),
    }
    let err = bool::from_object(Object::Integer(1)).unwrap_err();
    assert!(matches!(
        err,
        ConversionError::WrongKind { expected: ObjectKind::Boolean, actual: ObjectKind::Integer }
    ));
    let err = Array::from_object(Object::Nil).unwrap_err();
    assert!(matches!(
        err,
        ConversionError::WrongKind { expected: ObjectKind::Arr, actual: ObjectKind::Nil }
    ));
}

#[test]
fn narrowing_out_of_range_is_its_own_error() {
    let err = usize::from_object(Object::Integer(-1)).unwrap_err();
    assert!(matches!(err, ConversionError::OutOfRange));
    let err = u32::from_object(Object::Integer(1 << 40)).unwrap_err();
    assert!(matches!(err, ConversionError::OutOfRange));
    let err = i32::from_object(Object::Integer(i64::MIN)).unwrap_err();
    assert!(matches!(err, ConversionError::OutOfRange));
}

#[test]
fn round_trip_32_bit_integers() {
    assert_eq!(i32::from_object((-7i32).to_object().unwrap()).unwrap(), -7);
    assert_eq!(u32::from_object(0xFFFFFFFFu32.to_object().unwrap()).unwrap(), 0xFFFFFFFF);
}

#[test]
fn vec_conversion_stops_at_the_first_bad_element() {
    let arr = Object::Arr(Array::from_vec(vec![
        Object::Integer(1),
        Object::Boolean(false),
        Object::Str(NvimString::new()),
    ]));
    let err = <Vec<i64>>::from_object(arr).unwrap_err();
    assert!(matches!(
        err,
        ConversionError::WrongKind { expected: ObjectKind::Integer, actual: ObjectKind::Boolean }
    ));
}

#[test]
fn missing_field_is_distinct_from_wrong_kind() {
    let d = Dictionary::new();
    let err = required_field::<i64>(&d, &NvimString::from_str("x")).unwrap_err();
    match err {
        ConversionError::MissingField(key) => assert_eq!(key.to_string_lossy(), "x"),
        other => panic!("expected a missing-field failure, got {other:?}"),
    }

    let mut d = Dictionary::new();
    d.insert(NvimString::from_str("x"), Object::Boolean(true));
    let err = required_field::<i64>(&d, &NvimString::from_str("x")).unwrap_err();
    assert!(matches!(err, ConversionError::WrongKind { .. }));
}

#[test]
fn optional_field_decoding() {
    // Absent key: nothing.
    let d = Dictionary::new();
    let got: Option<i64> = optional_field::<i64>(&d, &NvimString::from_str("x")).unwrap();
    assert_eq!(got, None);

    // Key mapped to the nil-equivalent: nothing, too.
    let mut d = Dictionary::new();
    d.insert(NvimString::from_str("x"), Object::Nil);
    let got: Option<i64> = optional_field::<i64>(&d, &NvimString::from_str("x")).unwrap();
    assert_eq!(got, None);

    // Key mapped to a value: that value.
    let mut d = Dictionary::new();
    d.insert(NvimString::from_str("x"), Object::Integer(12));
    let got: Option<i64> = optional_field::<i64>(&d, &NvimString::from_str("x")).unwrap();
    assert_eq!(got, Some(12));
}

#[test]
fn position_round_trip() {
    // Encode {"row": 1, "col": 0}, decode the typed pair back.
    let p = Position { row: 1, col: 0 };
    let obj = p.to_object().unwrap();
    let d = match &obj {
        Object::Dict(d) => d,
        other => panic!("expected a dictionary, got {other:?}"),
    };
    assert!(deep_eq(
        d.get(&NvimString::from_str("row")).unwrap(),
        &Object::Integer(1)
    ));
    assert!(deep_eq(
        d.get(&NvimString::from_str("col")).unwrap(),
        &Object::Integer(0)
    ));
    let back = Position::from_object(obj).unwrap();
    assert_eq!(back, Position { row: 1, col: 0 });
}

#[test]
fn position_missing_field_and_wrong_kind() {
    let mut d = Dictionary::new();
    d.insert(NvimString::from_str("row"), Object::Integer(3));
    let err = Position::from_object(Object::Dict(d)).unwrap_err();
    match err {
        ConversionError::MissingField(key) => assert_eq!(key.to_string_lossy(), "col"),
        other => panic!("expected a missing-field failure, got {other:?}"),
    }
    let err = Position::from_object(Object::Integer(0)).unwrap_err();
    assert!(matches!(
        err,
        ConversionError::WrongKind { expected: ObjectKind::Dict, actual: ObjectKind::Integer }
    ));
}

#[test]
fn mark_decodes_from_a_positional_array() {
    let arr = Object::Arr(Array::from_vec(vec![
        Object::Integer(3),
        Object::Integer(14),
        Object::Handle(2),
        Object::Str(NvimString::from_str("scratch")),
    ]));
    let mark = oxi_types::Mark::from_object(arr).unwrap();
    assert_eq!(mark.row, 3);
    assert_eq!(mark.col, 14);
    assert_eq!(mark.buffer, 2);
    assert_eq!(mark.name.to_string_lossy(), "scratch");

    let back = mark.to_object().unwrap();
    let again = oxi_types::Mark::from_object(back).unwrap();
    assert_eq!(again.row, 3);
    assert_eq!(again.name.to_string_lossy(), "scratch");
}

#[test]
fn mark_from_short_array_names_the_first_missing_field() {
    let arr = Object::Arr(Array::from_vec(vec![Object::Integer(3), Object::Integer(14)]));
    let err = oxi_types::Mark::from_object(arr).unwrap_err();
    match err {
        ConversionError::MissingField(key) => assert_eq!(key.to_string_lossy(), "buffer"),
        other => panic!("expected a missing-field failure, got {other:?}"),
    }
    let err = oxi_types::Mark::from_object(Object::Arr(Array::new())).unwrap_err();
    match err {
        ConversionError::MissingField(key) => assert_eq!(key.to_string_lossy(), "row"),
        other => panic!("expected a missing-field failure, got {other:?}"),
    }
}

#[test]
fn mark_with_wrong_element_kind_names_both_kinds() {
    let arr = Object::Arr(Array::from_vec(vec![
        Object::Integer(3),
        Object::Integer(14),
        Object::Integer(2),
        Object::Str(NvimString::from_str("scratch")),
    ]));
    let err = oxi_types::Mark::from_object(arr).unwrap_err();
    assert!(matches!(
        err,
        ConversionError::WrongKind { expected: ObjectKind::Handle, actual: ObjectKind::Integer }
    ));
}

#[test]
fn encoding_a_size_beyond_the_dynamic_integer_fails() {
    let err = usize::MAX.to_object().unwrap_err();
    assert!(matches!(err, ConversionError::OutOfRange));
}

#[test]
fn object_from_typed_constructors() {
    assert!(deep_eq(&Object::from(true), &Object::Boolean(true)));
    assert!(deep_eq(&Object::from(5i64), &Object::Integer(5)));
    assert!(deep_eq(
        &Object::from(NvimString::from_str("s")),
        &Object::Str(NvimString::from_str("s"))
    ));
    assert!(deep_eq(&Object::from(Array::new()), &Object::Arr(Array::new())));
    assert!(deep_eq(
        &Object::from(Dictionary::new()),
        &Object::Dict(Dictionary::new())
    ));
}

#[test]
fn array_of_strings_to_host_list() {
    // ["foo", "bar", "baz"] must keep order and exact contents.
    let arr = Object::Arr(Array::from_vec(vec![
        Object::Str(NvimString::from_str("foo")),
        Object::Str(NvimString::from_str("bar")),
        Object::Str(NvimString::from_str("baz")),
    ]));
    let strings: Vec<String> = Vec::from_object(arr).unwrap();
    assert_eq!(strings, vec!["foo", "bar", "baz"]);
}
