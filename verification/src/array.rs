//! The owned, growable sequence of dynamic values.

use vstd::prelude::*;

use crate::non_owning::NonOwning;
use crate::object::Object;
use crate::object::Value;
use crate::object::values_of;

verus! {

broadcast use vstd::std_specs::vec::group_vec_axioms;

/// An ordered sequence of dynamic values, owned exclusively: dropping
/// the array drops every element.
#[derive(Debug)]
pub struct Array {
    items: Vec<Object>,
}

impl View for Array {
    type V = Seq<Object>;

    closed spec fn view(&self) -> Seq<Object> {
        self.items@
    }
}

/// An array is smaller than none of its elements: the model of a
/// dynamic value may recurse from an array into what it holds.
pub broadcast proof fn lemma_array_view_decreases(a: Array)
    ensures
        #[trigger] (decreases_to!(a => a@)),
{
    assert(decreases_to!(a => a.items));
    assert(decreases_to!(a.items => a.items@));
}

impl Array {
    /// The empty array.
    pub fn new() -> (r: Self)
        ensures
            r@ == Seq::<Object>::empty(),
    {
        Array { items: Vec::new() }
    }

    /// Takes ownership of the elements of a host vector, in order.
    pub fn from_vec(items: Vec<Object>) -> (r: Self)
        ensures
            r@ == items@,
    {
        Array { items }
    }

    /// Gives the elements up to a host vector, in order.
    pub fn into_vec(self) -> (r: Vec<Object>)
        ensures
            r@ == self@,
    {
        self.items
    }

    pub fn len(&self) -> (n: usize)
        ensures
            n == self@.len(),
    {
        self.items.len()
    }

    pub fn is_empty(&self) -> (r: bool)
        ensures
            r == (self@.len() == 0),
    {
        self.items.len() == 0
    }

    /// Appends an element, taking ownership of it.
    pub fn push(&mut self, obj: Object)
        ensures
            final(self)@ == old(self)@.push(obj),
    {
        self.items.push(obj);
    }

    /// The element at `i`.
    pub fn get(&self, i: usize) -> (r: &Object)
        requires
            i < self@.len(),
        ensures
            *r == self@[i as int],
    {
        &self.items[i]
    }

    /// The element at `i`, or nothing when `i` is out of range.
    pub fn try_get(&self, i: usize) -> (r: Option<&Object>)
        ensures
            i < self@.len() ==> (r matches Some(o) && *o == self@[i as int]),
            i >= self@.len() ==> r is None,
    {
        if i < self.items.len() {
            Some(&self.items[i])
        } else {
            None
        }
    }

    /// A borrow of this array for passing across the boundary without
    /// giving up ownership.
    pub fn non_owning<'a>(&'a self) -> (r: NonOwning<'a, Array>)
        ensures
            r.wrapped() == *self,
    {
        NonOwning::new(self)
    }
}

impl DeepView for Array {
    type V = Seq<Value>;

    open spec fn deep_view(&self) -> Seq<Value> {
        values_of(self@)
    }
}

} // verus!
