//! The error channel, the boundary call convention, and the non-owning
//! wrapper.

use oxi_types::Array;
use oxi_types::CallError;
use oxi_types::Error;
use oxi_types::ErrorKind;
use oxi_types::NonOwning;
use oxi_types::NvimString;
use oxi_types::Object;
use oxi_types::ConversionError;
use oxi_types::ObjectKind;
use oxi_types::call::check_call;
use oxi_types::call::check_color;
use oxi_types::call::check_typed;
use oxi_types::call::check_flag;
use oxi_types::call::check_handle;
use oxi_types::object::deep_eq;

#[test]
fn zeroed_record_reports_no_failure() {
    let err = Error::new();
    assert!(!err.is_err());
    assert_eq!(err.kind(), ErrorKind::NoError);
    assert_eq!(Error::default().kind(), ErrorKind::NoError);
    assert_eq!(Error::new().message(), "");
}

#[test]
fn record_from_str_is_an_exception() {
    let err = Error::from_str("boom");
    assert!(err.is_err());
    assert_eq!(err.kind(), ErrorKind::Exception);
    assert_eq!(err.message(), "boom");
}

#[test]
fn record_from_any_showable_failure() {
    let err = Error::from_err(String::from("disk full"));
    assert_eq!(err.kind(), ErrorKind::Exception);
    assert_eq!(err.message(), "disk full");
}

#[test]
fn record_from_str_with_interior_zero_byte_keeps_no_message() {
    // A zero byte cannot travel in a C string: the message is cut down
    // to the empty one rather than truncated silently at the zero.
    let err = Error::from_str("bo\0om");
    assert_eq!(err.kind(), ErrorKind::Exception);
    assert_eq!(err.message(), "");
}

#[test]
fn success_hands_the_payload_on() {
    let got = check_call(Error::new(), Object::Integer(9)).unwrap();
    assert!(deep_eq(&got, &Object::Integer(9)));
}

#[test]
fn exception_wins_over_any_payload() {
    // The record ends in the exception state: the wrapper must fail
    // without interpreting the (possibly garbage) success payload.
    let record = Error::from_parts(
        ErrorKind::Exception,
        Some(NvimString::from_str("invalid argument")),
    );
    let garbage = Object::Arr(Array::from_vec(vec![Object::LuaRef(-7)]));
    match check_call(record, garbage) {
        Err(CallError::Exception(msg)) => assert_eq!(msg.to_string_lossy(), "invalid argument"),
        other => panic!("expected an exception failure, got a different outcome: {:?}", other.is_ok()),
    }
}

#[test]
fn validation_becomes_its_own_variant() {
    let record = Error::from_parts(ErrorKind::Validation, None);
    match check_call(record, Object::Nil) {
        Err(CallError::Validation(msg)) => assert!(msg.is_empty()),
        other => panic!("expected a validation failure, got a different outcome: {:?}", other.is_ok()),
    }
}

#[test]
fn zero_handle_is_a_domain_error() {
    let ok = check_handle(Error::new(), 42, NvimString::from_str("could not create")).unwrap();
    assert_eq!(ok, 42);
    match check_handle(Error::new(), 0, NvimString::from_str("could not create")) {
        Err(CallError::Domain(msg)) => assert_eq!(msg.to_string_lossy(), "could not create"),
        other => panic!("expected a domain failure, got a different outcome: {:?}", other.is_ok()),
    }
    // The boundary's own channel still wins over the sentinel.
    let record = Error::from_parts(ErrorKind::Exception, None);
    assert!(matches!(
        check_handle(record, 0, NvimString::from_str("m")),
        Err(CallError::Exception(_))
    ));
}

#[test]
fn false_flag_is_a_domain_error() {
    assert!(check_flag(Error::new(), true, NvimString::from_str("m")).is_ok());
    match check_flag(Error::new(), false, NvimString::from_str("could not delete mark")) {
        Err(CallError::Domain(msg)) => {
            assert_eq!(msg.to_string_lossy(), "could not delete mark")
        },
        other => panic!("expected a domain failure, got a different outcome: {:?}", other.is_ok()),
    }
}

#[test]
fn the_whole_convention_decodes_on_success_only() {
    // Success with a matching payload: the typed value comes out.
    let n: i64 = check_typed(Error::new(), Object::Integer(33)).unwrap();
    assert_eq!(n, 33);

    // Success with a mismatched payload: a conversion failure, apart
    // from the boundary's own channel.
    match check_typed::<i64>(Error::new(), Object::Nil) {
        Err(CallError::Conversion(ConversionError::WrongKind { expected, actual })) => {
            assert_eq!(expected, ObjectKind::Integer);
            assert_eq!(actual, ObjectKind::Nil);
        },
        other => panic!("expected a conversion failure, got a different outcome: {:?}", other.is_ok()),
    }

    // A failed record: the payload is never even inspected.
    let record = Error::from_parts(ErrorKind::Exception, Some(NvimString::from_str("E5")));
    match check_typed::<i64>(record, Object::Nil) {
        Err(CallError::Exception(msg)) => assert_eq!(msg.to_string_lossy(), "E5"),
        other => panic!("expected an exception failure, got a different outcome: {:?}", other.is_ok()),
    }
}

#[test]
fn message_falls_back_to_the_kind_word() {
    assert_eq!(Error::from_parts(ErrorKind::Exception, None).message(), "exception");
    assert_eq!(Error::from_parts(ErrorKind::Validation, None).message(), "validation");
}

#[test]
fn color_sentinel_is_a_domain_error() {
    assert_eq!(check_color(0xFF0000, NvimString::from_str("m")).unwrap(), 0xFF0000);
    assert_eq!(check_color(0, NvimString::from_str("m")).unwrap(), 0);
    match check_color(-1, NvimString::from_str("not a color name")) {
        Err(CallError::Domain(msg)) => assert_eq!(msg.to_string_lossy(), "not a color name"),
        other => panic!("expected a domain failure, got a different outcome: {:?}", other.is_ok()),
    }
}

#[test]
fn non_owning_wrapper_never_frees_the_data() {
    let owned = NvimString::from_str("payload");
    {
        let wrapper = owned.non_owning();
        let again = wrapper;
        assert!(again.borrow().bytes_eq(&owned));
        assert!(wrapper.borrow().bytes_eq(&owned));
        // Both copies of the wrapper go out of scope here.
    }
    // The owner is still intact after the wrappers are gone.
    assert_eq!(owned.to_string_lossy(), "payload");
}

#[test]
fn non_owning_wraps_any_value() {
    let arr = Array::from_vec(vec![Object::Integer(1)]);
    let w = NonOwning::new(&arr);
    assert_eq!(w.borrow().len(), 1);
    let w = arr.non_owning();
    assert_eq!(w.borrow().len(), 1);
    let d = oxi_types::Dictionary::new();
    assert!(d.non_owning().borrow().is_empty());
    let obj = Object::Boolean(true);
    let w = obj.non_owning();
    let cloned = w.clone();
    assert!(deep_eq(cloned.borrow(), &obj));
}
