//! The owned byte-buffer string exchanged across the boundary.
//!
//! Native strings are length-delimited byte buffers: they are not
//! guaranteed to hold valid UTF-8, so the conversion to a host `String`
//! is lossy, while the conversion from `&str` is exact.

use vstd::prelude::*;
use vstd::string::StrSliceExecFns;
use vstd::string::StringSliceAdditionalSpecFns;
use vstd::utf8::decode_utf8;
use vstd::utf8::valid_utf8;

verus! {

broadcast use vstd::std_specs::vec::group_vec_axioms;

/// An owned, growable byte buffer with string semantics.
///
/// The model of a string is its byte sequence.
#[derive(Debug)]
pub struct NvimString {
    bytes: Vec<u8>,
}

impl View for NvimString {
    type V = Seq<u8>;

    closed spec fn view(&self) -> Seq<u8> {
        self.bytes@
    }
}

impl DeepView for NvimString {
    type V = Seq<u8>;

    open spec fn deep_view(&self) -> Seq<u8> {
        self.view()
    }
}

/// The characters that lossy UTF-8 decoding yields on a byte sequence
/// that is not valid UTF-8; a function of the bytes alone.
pub uninterp spec fn lossy_decode(bytes: Seq<u8>) -> Seq<char>;

impl NvimString {
    /// The empty string.
    pub fn new() -> (r: Self)
        ensures
            r@ == Seq::<u8>::empty(),
    {
        NvimString { bytes: Vec::new() }
    }

    /// Takes ownership of a byte buffer.
    pub fn from_bytes(bytes: Vec<u8>) -> (r: Self)
        ensures
            r@ == bytes@,
    {
        NvimString { bytes }
    }

    /// Copies the bytes of a host string slice; exact, since `&str` is
    /// always valid UTF-8.
    pub fn from_str(s: &str) -> (r: Self)
        ensures
            r@ == s.spec_bytes(),
    {
        NvimString { bytes: s.as_bytes_vec() }
    }

    /// The number of bytes held.
    pub fn len(&self) -> (n: usize)
        ensures
            n == self@.len(),
    {
        self.bytes.len()
    }

    pub fn is_empty(&self) -> (r: bool)
        ensures
            r == (self@.len() == 0),
    {
        self.bytes.len() == 0
    }

    /// The bytes held, without giving up ownership.
    pub fn as_bytes(&self) -> (r: &Vec<u8>)
        ensures
            r@ == self@,
    {
        &self.bytes
    }

    /// Gives up the buffer.
    pub fn into_bytes(self) -> (r: Vec<u8>)
        ensures
            r@ == self@,
    {
        self.bytes
    }

    /// Appends one byte.
    pub fn push_byte(&mut self, b: u8)
        ensures
            final(self)@ == old(self)@.push(b),
    {
        self.bytes.push(b);
    }

    /// A deep copy of the buffer, byte for byte.
    pub fn deep_clone(&self) -> (r: Self)
        ensures
            r@ == self@,
    {
        let mut bytes: Vec<u8> = Vec::new();
        let mut i: usize = 0;
        while i < self.bytes.len()
            invariant
                i <= self.bytes@.len(),
                bytes@ == self.bytes@.subrange(0, i as int),
            decreases self.bytes@.len() - i,
        {
            bytes.push(self.bytes[i]);
            i += 1;
            proof {
                assert(bytes@ =~= self.bytes@.subrange(0, i as int));
            }
        }
        proof {
            assert(bytes@ =~= self.bytes@);
        }
        NvimString { bytes }
    }

    /// Decodes the buffer into a host string: exact on valid UTF-8,
    /// with replacement characters elsewhere.
    ///
    /// Relies on `String::from_utf8_lossy`: the result is a function of
    /// the bytes alone, and valid UTF-8 decodes exactly.
    #[verifier::external_body]
    pub fn to_string_lossy(&self) -> (r: String)
        ensures
            r@ == lossy_decode(self@),
            valid_utf8(self@) ==> r@ == decode_utf8(self@),
    {
        String::from_utf8_lossy(&self.bytes).into_owned()
    }

    /// A borrow of this string for passing across the boundary without
    /// giving up ownership.
    pub fn non_owning<'a>(&'a self) -> (r: crate::non_owning::NonOwning<'a, NvimString>)
        ensures
            r.wrapped() == *self,
    {
        crate::non_owning::NonOwning::new(self)
    }

    /// Byte-for-byte equality with another string.
    pub fn bytes_eq(&self, other: &NvimString) -> (r: bool)
        ensures
            r == (self@ == other@),
    {
        bytes_equal(&self.bytes, &other.bytes)
    }
}

/// Equality of two byte buffers.
pub fn bytes_equal(a: &Vec<u8>, b: &Vec<u8>) -> (r: bool)
    ensures
        r == (a@ == b@),
{
    if a.len() != b.len() {
        assert(a@ != b@) by {
            assert(a@.len() != b@.len());
        };
        return false;
    }
    let mut i: usize = 0;
    while i < a.len()
        invariant
            i <= a@.len(),
            a@.len() == b@.len(),
            forall|j: int| 0 <= j < i ==> a@[j] == b@[j],
        decreases a@.len() - i,
    {
        if a[i] != b[i] {
            return false;
        }
        i += 1;
    }
    assert(a@ =~= b@);
    true
}

} // verus!
