//! The boundary call convention: zero an error record, issue the call,
//! inspect the record, and only then interpret the returned value.
//!
//! Every fallible boundary operation follows the same pattern. The
//! functions here are its decision steps: given the error record a call
//! left behind and the value it returned, they produce the typed result
//! the caller sees. When the record reports a failure the returned
//! value is never interpreted — the other side does not meaningfully
//! populate it on error paths — and the record's message transfers into
//! the typed error.

use vstd::prelude::*;

use crate::conversion::ConversionError;
use crate::error::Error;
use crate::error::ErrorKind;
use crate::object::Object;
use crate::string::NvimString;

verus! {

/// A typed failure surfaced by a boundary call.
#[derive(Debug)]
pub enum CallError {
    /// The error record reported an exception; the record's message
    /// travels along.
    Exception(NvimString),
    /// The error record reported a validation failure; the record's
    /// message travels along.
    Validation(NvimString),
    /// The call itself succeeded, but the returned dynamic value did
    /// not match the requested typed shape.
    Conversion(ConversionError),
    /// The call reported no boundary failure, but its result encodes
    /// failure by convention, through a sentinel value.
    Domain(NvimString),
}

/// The message bytes an error record hands into a typed error: the
/// attached message, or no bytes when none is attached.
pub open spec fn spec_error_message(e: Error) -> Seq<u8> {
    match e.spec_msg() {
        Some(m) => m,
        None => Seq::empty(),
    }
}

/// The inspection step of the boundary call convention.
///
/// When the record reports no failure the returned value is handed on
/// untouched; otherwise the record decides the outcome alone, the
/// returned value is dropped uninterpreted, and the message's ownership
/// transfers into the typed error.
pub fn check_call(err: Error, ret: Object) -> (r: Result<Object, CallError>)
    ensures
        err.spec_kind() == ErrorKind::NoError ==> r == Ok::<Object, CallError>(ret),
        err.spec_kind() == ErrorKind::Exception ==> (r matches Err(CallError::Exception(m))
            && m@ == spec_error_message(err)),
        err.spec_kind() == ErrorKind::Validation ==> (r matches Err(CallError::Validation(m))
            && m@ == spec_error_message(err)),
{
    let (kind, msg) = err.into_parts();
    let text = match msg {
        Some(m) => m,
        None => NvimString::new(),
    };
    match kind {
        ErrorKind::NoError => Ok(ret),
        ErrorKind::Exception => Err(CallError::Exception(text)),
        ErrorKind::Validation => Err(CallError::Validation(text)),
    }
}

/// The inspection step for calls that return a handle and signal "could
/// not create" through the zero handle: the zero sentinel becomes a
/// domain error carrying `domain_msg`, distinct from the boundary's own
/// error channel.
pub fn check_handle(err: Error, handle: i32, domain_msg: NvimString) -> (r: Result<i32, CallError>)
    ensures
        err.spec_kind() == ErrorKind::NoError && handle != 0 ==> r == Ok::<i32, CallError>(handle),
        err.spec_kind() == ErrorKind::NoError && handle == 0 ==> (r matches Err(
            CallError::Domain(m),
        ) && m@ == domain_msg@),
        err.spec_kind() == ErrorKind::Exception ==> (r matches Err(CallError::Exception(m))
            && m@ == spec_error_message(err)),
        err.spec_kind() == ErrorKind::Validation ==> (r matches Err(CallError::Validation(m))
            && m@ == spec_error_message(err)),
{
    match check_call(err, Object::Integer(handle as i64)) {
        Err(e) => Err(e),
        Ok(_) => {
            if handle == 0 {
                Err(CallError::Domain(domain_msg))
            } else {
                Ok(handle)
            }
        },
    }
}

/// The inspection step for calls that return a completion flag and
/// signal "did nothing" through `false`: the false sentinel becomes a
/// domain error carrying `domain_msg`.
pub fn check_flag(err: Error, done: bool, domain_msg: NvimString) -> (r: Result<(), CallError>)
    ensures
        err.spec_kind() == ErrorKind::NoError && done ==> r == Ok::<(), CallError>(()),
        err.spec_kind() == ErrorKind::NoError && !done ==> (r matches Err(CallError::Domain(m))
            && m@ == domain_msg@),
        err.spec_kind() == ErrorKind::Exception ==> (r matches Err(CallError::Exception(m))
            && m@ == spec_error_message(err)),
        err.spec_kind() == ErrorKind::Validation ==> (r matches Err(CallError::Validation(m))
            && m@ == spec_error_message(err)),
{
    match check_call(err, Object::Boolean(done)) {
        Err(e) => Err(e),
        Ok(_) => {
            if done {
                Ok(())
            } else {
                Err(CallError::Domain(domain_msg))
            }
        },
    }
}

/// The whole convention for a call that returns a dynamic value: zero
/// record in, returned value checked against the record, and the value
/// decoded into the requested typed shape only on success. A decoding
/// failure is surfaced as its own variant, distinct from the
/// boundary's error channel.
pub fn check_typed<T: crate::conversion::FromObject>(err: Error, ret: Object) -> (r: Result<
    T,
    CallError,
>)
    ensures
        err.spec_kind() == ErrorKind::NoError ==> (match (
            r,
            T::from_value(crate::object::value_of(ret)),
        ) {
            (Ok(t), Ok(mv)) => t.deep_view() == mv,
            (Err(CallError::Conversion(e)), Err(me)) => e@ == me,
            _ => false,
        }),
        err.spec_kind() == ErrorKind::Exception ==> (r matches Err(CallError::Exception(m))
            && m@ == spec_error_message(err)),
        err.spec_kind() == ErrorKind::Validation ==> (r matches Err(CallError::Validation(m))
            && m@ == spec_error_message(err)),
{
    match check_call(err, ret) {
        Err(e) => Err(e),
        Ok(obj) => match T::from_object(obj) {
            Ok(t) => Ok(t),
            Err(e) => Err(CallError::Conversion(e)),
        },
    }
}

/// The inspection step for calls that return a 24-bit color code and
/// signal "no such name" through the sentinel -1: the sentinel becomes
/// a domain error carrying `domain_msg`. These calls consult no error
/// record at all — the failure travels in the return value alone.
pub fn check_color(code: i32, domain_msg: NvimString) -> (r: Result<u32, CallError>)
    requires
        code >= -1,
    ensures
        code >= 0 ==> r == Ok::<u32, CallError>(code as u32),
        code == -1 ==> (r matches Err(CallError::Domain(m)) && m@ == domain_msg@),
{
    if code >= 0 {
        Ok(code as u32)
    } else {
        Err(CallError::Domain(domain_msg))
    }
}

} // verus!
