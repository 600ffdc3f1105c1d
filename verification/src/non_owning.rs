//! The non-owning borrow wrapper used to hand owned data across the
//! boundary "by value" without transferring ownership.

use vstd::prelude::*;

verus! {

/// A non-owning view of an owned value.
///
/// The boundary receives data by value but neither destroys it nor
/// moves out of it, so the sender stays responsible for the one
/// eventual free. The wrapper holds a borrow of the owned value:
/// dropping the wrapper frees nothing, and the borrow's lifetime keeps
/// the wrapper from outliving the owner, so the receiving side can
/// never observe a dangling value through a well-typed call.
pub struct NonOwning<'a, T> {
    inner: &'a T,
}

impl<'a, T> NonOwning<'a, T> {
    /// The wrapped value.
    pub closed spec fn wrapped(self) -> T {
        *self.inner
    }

    /// Wraps a borrow of an owned value, leaving ownership with the
    /// caller.
    pub fn new(value: &'a T) -> (r: Self)
        ensures
            r.wrapped() == *value,
    {
        NonOwning { inner: value }
    }

    /// Reads the wrapped value, as the receiving side of the boundary
    /// does.
    pub fn borrow(&self) -> (r: &'a T)
        ensures
            *r == self.wrapped(),
    {
        self.inner
    }
}

impl<'a, T> Clone for NonOwning<'a, T> {
    /// Duplicating the wrapper duplicates the borrow, never the data.
    fn clone(&self) -> (r: Self)
        ensures
            r.wrapped() == self.wrapped(),
    {
        NonOwning { inner: self.inner }
    }
}

impl<'a, T> Copy for NonOwning<'a, T> {

}

} // verus!
