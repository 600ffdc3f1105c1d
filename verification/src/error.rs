//! The out-parameter error record the boundary reports failures
//! through.
//!
//! Every fallible boundary call takes a mutable error record that the
//! caller zero-initializes; after the call the record is inspected, and
//! only when it still reports no failure may the returned value be
//! trusted. The native record carries its message as a raw C string;
//! here the message is an owned byte buffer, and converting the record
//! into a typed result transfers the message instead of leaking it.

use vstd::prelude::*;
use vstd::string::StringSliceAdditionalSpecFns;
use vstd::string::StrSliceExecFns;

use crate::string::NvimString;
use crate::string::lossy_decode;

verus! {

/// The failure discriminant of the error record.
#[derive(Clone, Copy, Debug, PartialEq, Eq, Structural)]
pub enum ErrorKind {
    /// No failure: the record is in its zero-initialized state.
    NoError,
    /// An exception was raised on the other side of the boundary.
    Exception,
    /// The other side rejected an argument.
    Validation,
}

/// The error record: a failure discriminant and an optional owned
/// message.
#[derive(Debug)]
pub struct Error {
    kind: ErrorKind,
    msg: Option<NvimString>,
}

impl Error {
    /// The failure discriminant.
    pub closed spec fn spec_kind(self) -> ErrorKind {
        self.kind
    }

    /// The message bytes, when a message is attached.
    pub closed spec fn spec_msg(self) -> Option<Seq<u8>> {
        match self.msg {
            Some(m) => Some(m@),
            None => None,
        }
    }

    /// The zero-initialized record every boundary call starts from.
    pub fn new() -> (r: Self)
        ensures
            r.spec_kind() == ErrorKind::NoError,
            r.spec_msg() is None,
    {
        Error { kind: ErrorKind::NoError, msg: None }
    }

    /// A record carrying a failure discriminant and a message.
    pub fn from_parts(kind: ErrorKind, msg: Option<NvimString>) -> (r: Self)
        ensures
            r.spec_kind() == kind,
            r.spec_msg() == match msg {
                Some(m) => Some(m@),
                None => None::<Seq<u8>>,
            },
    {
        Error { kind, msg }
    }

    /// An exception record whose message holds the bytes of `s`, cut
    /// down to the empty message when `s` cannot be carried as a C
    /// string because a zero byte stands inside it.
    pub fn from_str(s: &str) -> (r: Self)
        ensures
            r.spec_kind() == ErrorKind::Exception,
            r.spec_msg() == (if s.spec_bytes().contains(0u8) {
                Some(Seq::<u8>::empty())
            } else {
                Some(s.spec_bytes())
            }),
    {
        let bytes = s.as_bytes_vec();
        let n = bytes.len();
        let mut i: usize = 0;
        while i < n
            invariant
                n == bytes@.len(),
                i <= n,
                bytes@ == s.spec_bytes(),
                forall|j: int| 0 <= j < i ==> bytes@[j] != 0u8,
            decreases n - i,
        {
            if bytes[i] == 0 {
                assert(bytes@.contains(0u8));
                return Error {
                    kind: ErrorKind::Exception,
                    msg: Some(NvimString::new()),
                };
            }
            i += 1;
        }
        assert(!bytes@.contains(0u8));
        Error { kind: ErrorKind::Exception, msg: Some(NvimString::from_bytes(bytes)) }
    }

    /// An exception record rendering any failure a caller can show.
    pub fn from_err<E: core::fmt::Display>(err: E) -> (r: Self)
        ensures
            r.spec_kind() == ErrorKind::Exception,
            r.spec_msg() is Some,
    {
        let text = err.to_string();
        Error::from_str(text.as_str())
    }

    /// Whether the record reports a failure.
    pub fn is_err(&self) -> (r: bool)
        ensures
            r == (self.spec_kind() != ErrorKind::NoError),
    {
        match self.kind {
            ErrorKind::NoError => false,
            _ => true,
        }
    }

    /// The failure discriminant.
    pub fn kind(&self) -> (k: ErrorKind)
        ensures
            k == self.spec_kind(),
    {
        self.kind
    }

    /// Gives up the record, handing out its parts; the message's
    /// ownership transfers to the caller.
    pub fn into_parts(self) -> (r: (ErrorKind, Option<NvimString>))
        ensures
            r.0 == self.spec_kind(),
            self.spec_msg() == match r.1 {
                Some(m) => Some(m@),
                None => None::<Seq<u8>>,
            },
    {
        (self.kind, self.msg)
    }

    /// Renders the record for a reader: the message when one is
    /// attached, else the failure discriminant's name.
    pub fn message(&self) -> (r: String)
        ensures
            match self.spec_msg() {
                Some(m) => r@ == lossy_decode(m),
                None => r@ == match self.spec_kind() {
                    ErrorKind::NoError => ""@,
                    ErrorKind::Exception => "exception"@,
                    ErrorKind::Validation => "validation"@,
                },
            },
    {
        match &self.msg {
            Some(m) => m.to_string_lossy(),
            None => match self.kind {
                ErrorKind::NoError => "".to_owned(),
                ErrorKind::Exception => "exception".to_owned(),
                ErrorKind::Validation => "validation".to_owned(),
            },
        }
    }
}

impl Default for Error {
    /// The zero-initialized record.
    fn default() -> (r: Self)
        ensures
            r.spec_kind() == ErrorKind::NoError,
            r.spec_msg() is None,
    {
        Error::new()
    }
}

} // verus!
