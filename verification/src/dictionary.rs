//! The owned association container of dynamic values.
//!
//! A dictionary is a sequence of key/value pairs in insertion order, not
//! a hash map: lookup is a linear scan from the front, matching the
//! small sizes the boundary exchanges. The structure itself does not
//! force keys to be unique; `insert` keeps them unique by updating the
//! first pair whose key matches.

use vstd::prelude::*;

use crate::non_owning::NonOwning;
use crate::object::Object;
use crate::object::Value;
use crate::object::pair_values_of;
use crate::string::NvimString;

verus! {

broadcast use vstd::std_specs::vec::group_vec_axioms;

/// An ordered sequence of (key, value) pairs, owned exclusively:
/// dropping the dictionary drops every key and every value.
#[derive(Debug)]
pub struct Dictionary {
    pairs: Vec<(NvimString, Object)>,
}

impl View for Dictionary {
    type V = Seq<(NvimString, Object)>;

    closed spec fn view(&self) -> Seq<(NvimString, Object)> {
        self.pairs@
    }
}

/// A dictionary is smaller than none of its pairs: the model of a
/// dynamic value may recurse from a dictionary into what it holds.
pub broadcast proof fn lemma_dictionary_view_decreases(d: Dictionary)
    ensures
        #[trigger] (decreases_to!(d => d@)),
{
    assert(decreases_to!(d => d.pairs));
    assert(decreases_to!(d.pairs => d.pairs@));
}

/// The index of the first pair whose key holds the bytes `key`, or a
/// negative number when no pair does.
pub open spec fn key_index(s: Seq<(NvimString, Object)>, key: Seq<u8>) -> int
    decreases s.len(),
{
    if s.len() == 0 {
        -1
    } else if s[0].0@ == key {
        0
    } else {
        let rest = key_index(s.drop_first(), key);
        if rest < 0 {
            -1
        } else {
            rest + 1
        }
    }
}

/// Whether some pair's key holds the bytes `key`.
pub open spec fn has_key(s: Seq<(NvimString, Object)>, key: Seq<u8>) -> bool {
    key_index(s, key) >= 0
}

/// The value of the first pair whose key holds the bytes `key`.
pub open spec fn spec_lookup(s: Seq<(NvimString, Object)>, key: Seq<u8>) -> Option<Object> {
    if has_key(s, key) {
        Some(s[key_index(s, key)].1)
    } else {
        None
    }
}

/// What index-assignment leaves behind: the first pair whose key
/// matches gets the new value and keeps its key, or a new pair is
/// appended when no key matches.
pub open spec fn spec_insert(
    s: Seq<(NvimString, Object)>,
    key: NvimString,
    value: Object,
) -> Seq<(NvimString, Object)> {
    if has_key(s, key@) {
        s.update(key_index(s, key@), (s[key_index(s, key@)].0, value))
    } else {
        s.push((key, value))
    }
}

/// `key_index` finds the first match: the pair at the index carries the
/// key, every pair before it does not, and a negative result means no
/// pair does.
pub proof fn lemma_key_index(s: Seq<(NvimString, Object)>, key: Seq<u8>)
    ensures
        key_index(s, key) >= 0 ==> {
            &&& key_index(s, key) < s.len()
            &&& s[key_index(s, key)].0@ == key
            &&& forall|m: int| 0 <= m < key_index(s, key) ==> (#[trigger] s[m].0)@ != key
        },
        key_index(s, key) < 0 ==> forall|m: int| 0 <= m < s.len() ==> (#[trigger] s[m].0)@ != key,
    decreases s.len(),
{
    if s.len() > 0 && s[0].0@ != key {
        lemma_key_index(s.drop_first(), key);
        let ki = key_index(s, key);
        if ki >= 0 {
            assert(s.drop_first()[ki - 1] == s[ki]);
            assert forall|m: int| 0 <= m < ki implies (#[trigger] s[m].0)@ != key by {
                if m > 0 {
                    assert(s.drop_first()[m - 1] == s[m]);
                }
            }
        } else {
            assert forall|m: int| 0 <= m < s.len() implies (#[trigger] s[m].0)@ != key by {
                if m > 0 {
                    assert(s.drop_first()[m - 1] == s[m]);
                }
            }
        }
    }
}

/// The value of the first pair whose key holds the bytes `key`, over
/// the models of the pairs.
pub open spec fn value_lookup(ps: Seq<(Seq<u8>, Value)>, key: Seq<u8>) -> Option<Value>
    decreases ps.len(),
{
    if ps.len() == 0 {
        None
    } else if ps[0].0 == key {
        Some(ps[0].1)
    } else {
        value_lookup(ps.drop_first(), key)
    }
}

/// Lookup on the models agrees with lookup on the pairs: the first
/// match is the same pair on both sides.
pub proof fn lemma_value_lookup(s: Seq<(NvimString, Object)>, key: Seq<u8>)
    ensures
        value_lookup(pair_values_of(s), key) == match spec_lookup(s, key) {
            Some(o) => Some(crate::object::value_of(o)),
            None => None::<Value>,
        },
    decreases s.len(),
{
    crate::object::lemma_pair_values_of(s);
    if s.len() > 0 {
        lemma_value_lookup(s.drop_first(), key);
        crate::object::lemma_pair_values_of(s.drop_first());
        assert(pair_values_of(s).drop_first() =~= pair_values_of(s.drop_first())) by {
            crate::object::lemma_pair_values_of(s);
            crate::object::lemma_pair_values_of(s.drop_first());
        }
        lemma_key_index(s, key);
        lemma_key_index(s.drop_first(), key);
        if s[0].0@ != key {
            if key_index(s.drop_first(), key) >= 0 {
                assert(s[key_index(s, key)] == s.drop_first()[key_index(s.drop_first(), key)]);
            }
        }
    }
}

/// Appending a pair leaves every other key's presence alone: the new
/// sequence has a key exactly when the old one had it or the appended
/// pair carries it.
pub proof fn lemma_has_key_push(s: Seq<(NvimString, Object)>, p: (NvimString, Object), key: Seq<u8>)
    ensures
        has_key(s.push(p), key) == (has_key(s, key) || p.0@ == key),
    decreases s.len(),
{
    if s.len() == 0 {
        assert(s.push(p)[0] == p);
        assert(s.push(p).drop_first() =~= Seq::<(NvimString, Object)>::empty());
        assert(key_index(Seq::<(NvimString, Object)>::empty(), key) == -1);
    } else {
        lemma_has_key_push(s.drop_first(), p, key);
        assert(s.push(p)[0] == s[0]);
        assert(s.push(p).drop_first() =~= s.drop_first().push(p));
    }
}

/// Inserting a key no pair holds appends the new pair.
pub proof fn lemma_insert_fresh(s: Seq<(NvimString, Object)>, key: NvimString, value: Object)
    requires
        !has_key(s, key@),
    ensures
        spec_insert(s, key, value) == s.push((key, value)),
{
}

/// Law: inserting three fresh, pairwise distinct keys appends their
/// pairs in insertion order, regardless of what the keys hold.
pub proof fn lemma_insertion_order(
    s: Seq<(NvimString, Object)>,
    k1: NvimString,
    v1: Object,
    k2: NvimString,
    v2: Object,
    k3: NvimString,
    v3: Object,
)
    requires
        !has_key(s, k1@),
        !has_key(s, k2@),
        !has_key(s, k3@),
        k1@ != k2@,
        k1@ != k3@,
        k2@ != k3@,
    ensures
        spec_insert(spec_insert(spec_insert(s, k1, v1), k2, v2), k3, v3) == s.push(
            (k1, v1),
        ).push((k2, v2)).push((k3, v3)),
{
    lemma_insert_fresh(s, k1, v1);
    lemma_has_key_push(s, (k1, v1), k2@);
    lemma_insert_fresh(s.push((k1, v1)), k2, v2);
    lemma_has_key_push(s, (k1, v1), k3@);
    lemma_has_key_push(s.push((k1, v1)), (k2, v2), k3@);
    lemma_insert_fresh(s.push((k1, v1)).push((k2, v2)), k3, v3);
}

impl Dictionary {
    /// The empty dictionary.
    pub fn new() -> (r: Self)
        ensures
            r@ == Seq::<(NvimString, Object)>::empty(),
    {
        Dictionary { pairs: Vec::new() }
    }

    /// Takes ownership of the pairs of a host vector, in order.
    pub fn from_vec(pairs: Vec<(NvimString, Object)>) -> (r: Self)
        ensures
            r@ == pairs@,
    {
        Dictionary { pairs }
    }

    /// Gives the pairs up to a host vector, in order.
    pub fn into_vec(self) -> (r: Vec<(NvimString, Object)>)
        ensures
            r@ == self@,
    {
        self.pairs
    }

    pub fn len(&self) -> (n: usize)
        ensures
            n == self@.len(),
    {
        self.pairs.len()
    }

    pub fn is_empty(&self) -> (r: bool)
        ensures
            r == (self@.len() == 0),
    {
        self.pairs.len() == 0
    }

    /// The pair at `i`, in insertion order.
    pub fn get_pair(&self, i: usize) -> (r: &(NvimString, Object))
        requires
            i < self@.len(),
        ensures
            *r == self@[i as int],
    {
        &self.pairs[i]
    }

    /// The value of the first pair whose key matches `key` byte for
    /// byte, or nothing when no key does.
    pub fn get(&self, key: &NvimString) -> (r: Option<&Object>)
        ensures
            match r {
                Some(o) => spec_lookup(self@, key@) == Some(*o),
                None => spec_lookup(self@, key@) is None,
            },
    {
        proof {
            lemma_key_index(self@, key@);
        }
        let n = self.pairs.len();
        let mut i: usize = 0;
        while i < n
            invariant
                n == self@.len(),
                i <= n,
                forall|m: int| 0 <= m < i ==> (#[trigger] self@[m].0)@ != key@,
            decreases n - i,
        {
            if self.pairs[i].0.bytes_eq(key) {
                proof {
                    lemma_key_index(self@, key@);
                    assert(key_index(self@, key@) == i);
                }
                return Some(&self.pairs[i].1);
            }
            i += 1;
        }
        proof {
            lemma_key_index(self@, key@);
        }
        None
    }

    /// Whether some key matches `key` byte for byte.
    pub fn contains_key(&self, key: &NvimString) -> (r: bool)
        ensures
            r == has_key(self@, key@),
    {
        proof {
            lemma_key_index(self@, key@);
        }
        match self.get(key) {
            Some(_) => true,
            None => false,
        }
    }

    /// Index-assignment: gives the first pair whose key matches `key`
    /// the value `value`, or appends the new pair when no key matches.
    pub fn insert(&mut self, key: NvimString, value: Object)
        ensures
            final(self)@ == spec_insert(old(self)@, key, value),
    {
        proof {
            lemma_key_index(self@, key@);
        }
        let n = self.pairs.len();
        let mut i: usize = 0;
        while i < n
            invariant
                n == self@.len(),
                i <= n,
                *self == *old(self),
                forall|m: int| 0 <= m < i ==> (#[trigger] self@[m].0)@ != key@,
            decreases n - i,
        {
            if self.pairs[i].0.bytes_eq(&key) {
                proof {
                    lemma_key_index(self@, key@);
                    assert(key_index(self@, key@) == i);
                }
                let pair = self.pairs.remove(i);
                self.pairs.insert(i, (pair.0, value));
                proof {
                    assert(self@ =~= spec_insert(old(self)@, key, value));
                }
                return;
            }
            i += 1;
        }
        proof {
            lemma_key_index(self@, key@);
        }
        self.pairs.push((key, value));
    }

    /// A borrow of this dictionary for passing across the boundary
    /// without giving up ownership.
    pub fn non_owning<'a>(&'a self) -> (r: NonOwning<'a, Dictionary>)
        ensures
            r.wrapped() == *self,
    {
        NonOwning::new(self)
    }
}

impl DeepView for Dictionary {
    type V = Seq<(Seq<u8>, Value)>;

    open spec fn deep_view(&self) -> Seq<(Seq<u8>, Value)> {
        pair_values_of(self@)
    }
}

} // verus!
