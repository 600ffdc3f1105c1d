//! The tagged dynamic value exchanged across the boundary.

use vstd::prelude::*;

use crate::array::Array;
use crate::array::lemma_array_view_decreases;
use crate::dictionary::Dictionary;
use crate::dictionary::lemma_dictionary_view_decreases;
use crate::non_owning::NonOwning;
use crate::string::NvimString;

verus! {

broadcast use
    vstd::std_specs::vec::group_vec_axioms,
    lemma_array_view_decreases,
    lemma_dictionary_view_decreases;

/// The kind discriminant of a dynamic value.
#[derive(Clone, Copy, Debug, PartialEq, Eq, Structural)]
pub enum ObjectKind {
    Nil,
    Boolean,
    Integer,
    Float,
    Str,
    Arr,
    Dict,
    Handle,
    LuaRef,
}

/// Mathematical model of a dynamic value: the payload of every kind as
/// a plain mathematical object, with containers as sequences and
/// strings as byte sequences.
pub enum Value {
    Nil,
    Bool(bool),
    Int(i64),
    Float(u64),
    Str(Seq<u8>),
    Arr(Seq<Value>),
    Dict(Seq<(Seq<u8>, Value)>),
    Handle(i32),
    LuaRef(i32),
}

impl Value {
    /// The kind a dynamic value with this model carries.
    pub open spec fn kind(self) -> ObjectKind {
        match self {
            Value::Nil => ObjectKind::Nil,
            Value::Bool(_) => ObjectKind::Boolean,
            Value::Int(_) => ObjectKind::Integer,
            Value::Float(_) => ObjectKind::Float,
            Value::Str(_) => ObjectKind::Str,
            Value::Arr(_) => ObjectKind::Arr,
            Value::Dict(_) => ObjectKind::Dict,
            Value::Handle(_) => ObjectKind::Handle,
            Value::LuaRef(_) => ObjectKind::LuaRef,
        }
    }
}

/// A dynamic value: one variant per kind, with the payload's type
/// determined by the variant. Heap-backed payloads (string, array,
/// dictionary) are owned exclusively by the value holding them, and a
/// float is carried as its bit pattern, so that equality of values is
/// the native bitwise one.
#[derive(Debug)]
pub enum Object {
    Nil,
    Boolean(bool),
    Integer(i64),
    Float { bits: u64 },
    Str(NvimString),
    Arr(Array),
    Dict(Dictionary),
    Handle(i32),
    LuaRef(i32),
}

/// The model of a dynamic value.
pub open spec fn value_of(o: Object) -> Value
    decreases o,
{
    match o {
        Object::Nil => Value::Nil,
        Object::Boolean(b) => Value::Bool(b),
        Object::Integer(i) => Value::Int(i),
        Object::Float { bits } => Value::Float(bits),
        Object::Str(s) => Value::Str(s@),
        Object::Arr(a) => Value::Arr(values_of(a@)),
        Object::Dict(d) => Value::Dict(pair_values_of(d@)),
        Object::Handle(h) => Value::Handle(h),
        Object::LuaRef(r) => Value::LuaRef(r),
    }
}

/// The models of a sequence of dynamic values, in order.
pub open spec fn values_of(s: Seq<Object>) -> Seq<Value>
    decreases s,
{
    if s.len() == 0 {
        Seq::empty()
    } else {
        values_of(s.drop_last()).push(value_of(s.last()))
    }
}

/// The models of a sequence of key/value pairs, in order, with each key
/// as its byte sequence.
pub open spec fn pair_values_of(s: Seq<(NvimString, Object)>) -> Seq<(Seq<u8>, Value)>
    decreases s,
{
    if s.len() == 0 {
        Seq::empty()
    } else {
        pair_values_of(s.drop_last()).push((s.last().0@, value_of(s.last().1)))
    }
}

/// `values_of` maps the model over the sequence: same length, index by
/// index.
pub proof fn lemma_values_of(s: Seq<Object>)
    ensures
        values_of(s).len() == s.len(),
        forall|i: int| 0 <= i < s.len() ==> values_of(s)[i] == value_of(s[i]),
    decreases s.len(),
{
    if s.len() > 0 {
        lemma_values_of(s.drop_last());
    }
}

/// `pair_values_of` maps the model over the pairs: same length, index
/// by index.
pub proof fn lemma_pair_values_of(s: Seq<(NvimString, Object)>)
    ensures
        pair_values_of(s).len() == s.len(),
        forall|i: int| 0 <= i < s.len()
            ==> pair_values_of(s)[i] == (s[i].0@, value_of(s[i].1)),
    decreases s.len(),
{
    if s.len() > 0 {
        lemma_pair_values_of(s.drop_last());
    }
}

impl Object {
    /// The model of this dynamic value.
    pub open spec fn value(self) -> Value {
        value_of(self)
    }

    /// The kind discriminant: which variant the payload carries.
    pub fn kind(&self) -> (k: ObjectKind)
        ensures
            k == self.value().kind(),
    {
        match self {
            Object::Nil => ObjectKind::Nil,
            Object::Boolean(_) => ObjectKind::Boolean,
            Object::Integer(_) => ObjectKind::Integer,
            Object::Float { .. } => ObjectKind::Float,
            Object::Str(_) => ObjectKind::Str,
            Object::Arr(_) => ObjectKind::Arr,
            Object::Dict(_) => ObjectKind::Dict,
            Object::Handle(_) => ObjectKind::Handle,
            Object::LuaRef(_) => ObjectKind::LuaRef,
        }
    }

    pub fn is_nil(&self) -> (r: bool)
        ensures
            r == (self.value() is Nil),
    {
        match self {
            Object::Nil => true,
            _ => false,
        }
    }

    /// A borrow of this value for passing across the boundary without
    /// giving up ownership.
    pub fn non_owning<'a>(&'a self) -> (r: NonOwning<'a, Object>)
        ensures
            r.wrapped() == *self,
    {
        NonOwning::new(self)
    }

    /// A deep copy: an independently owned value with the same model.
    pub fn deep_clone(&self) -> (r: Object)
        ensures
            r.value() == self.value(),
        decreases *self,
    {
        match self {
            Object::Nil => Object::Nil,
            Object::Boolean(b) => Object::Boolean(*b),
            Object::Integer(i) => Object::Integer(*i),
            Object::Float { bits } => Object::Float { bits: *bits },
            Object::Str(s) => Object::Str(s.deep_clone()),
            Object::Handle(h) => Object::Handle(*h),
            Object::LuaRef(l) => Object::LuaRef(*l),
            Object::Arr(xs) => {
                proof {
                    lemma_values_of(xs@);
                }
                let n = xs.len();
                let mut items: Vec<Object> = Vec::new();
                let mut i: usize = 0;
                while i < n
                    invariant
                        n == xs@.len(),
                        i <= n,
                        *self == Object::Arr(*xs),
                        items@.len() == i,
                        forall|j: int| 0 <= j < i
                            ==> #[trigger] value_of(items@[j]) == value_of(xs@[j]),
                    decreases n - i,
                {
                    proof {
                        assert(decreases_to!(*self => self->Arr_0));
                        lemma_array_view_decreases(*xs);
                        assert(decreases_to!(xs@ => xs@[i as int]));
                        assert(decreases_to!(*self => xs@[i as int]));
                    }
                    items.push(xs.get(i).deep_clone());
                    i += 1;
                }
                proof {
                    lemma_values_of(items@);
                    lemma_values_of(xs@);
                    assert(values_of(items@) =~= values_of(xs@));
                }
                Object::Arr(Array::from_vec(items))
            },
            Object::Dict(xs) => {
                proof {
                    lemma_pair_values_of(xs@);
                }
                let n = xs.len();
                let mut pairs: Vec<(NvimString, Object)> = Vec::new();
                let mut i: usize = 0;
                while i < n
                    invariant
                        n == xs@.len(),
                        i <= n,
                        *self == Object::Dict(*xs),
                        pairs@.len() == i,
                        forall|j: int| 0 <= j < i
                            ==> #[trigger] pair_model_eq(pairs@[j], xs@[j]),
                    decreases n - i,
                {
                    proof {
                        assert(decreases_to!(*self => self->Dict_0));
                        lemma_dictionary_view_decreases(*xs);
                        assert(decreases_to!(xs@ => xs@[i as int]));
                        assert(decreases_to!(xs@[i as int] => xs@[i as int].1));
                        assert(decreases_to!(*self => xs@[i as int].1));
                    }
                    let p = xs.get_pair(i);
                    let key = p.0.deep_clone();
                    let val = p.1.deep_clone();
                    pairs.push((key, val));
                    proof {
                        assert(pair_model_eq(pairs@[i as int], xs@[i as int]));
                    }
                    i += 1;
                }
                proof {
                    lemma_pair_values_of(pairs@);
                    lemma_pair_values_of(xs@);
                    assert forall|j: int| 0 <= j < n
                        implies pair_values_of(pairs@)[j] == pair_values_of(xs@)[j] by {
                        assert(pair_model_eq(pairs@[j], xs@[j]));
                    }
                    assert(pair_values_of(pairs@) =~= pair_values_of(xs@));
                }
                Object::Dict(Dictionary::from_vec(pairs))
            },
        }
    }
}

impl DeepView for Object {
    type V = Value;

    open spec fn deep_view(&self) -> Value {
        value_of(*self)
    }
}

impl From<bool> for Object {
    fn from(b: bool) -> (r: Object) {
        Object::Boolean(b)
    }
}

impl vstd::std_specs::convert::FromSpecImpl<bool> for Object {
    open spec fn obeys_from_spec() -> bool {
        true
    }

    open spec fn from_spec(b: bool) -> Object {
        Object::Boolean(b)
    }
}

impl From<i64> for Object {
    fn from(i: i64) -> (r: Object) {
        Object::Integer(i)
    }
}

impl vstd::std_specs::convert::FromSpecImpl<i64> for Object {
    open spec fn obeys_from_spec() -> bool {
        true
    }

    open spec fn from_spec(i: i64) -> Object {
        Object::Integer(i)
    }
}

impl From<NvimString> for Object {
    fn from(s: NvimString) -> (r: Object) {
        Object::Str(s)
    }
}

impl vstd::std_specs::convert::FromSpecImpl<NvimString> for Object {
    open spec fn obeys_from_spec() -> bool {
        true
    }

    open spec fn from_spec(s: NvimString) -> Object {
        Object::Str(s)
    }
}

impl From<Array> for Object {
    fn from(a: Array) -> (r: Object) {
        Object::Arr(a)
    }
}

impl vstd::std_specs::convert::FromSpecImpl<Array> for Object {
    open spec fn obeys_from_spec() -> bool {
        true
    }

    open spec fn from_spec(a: Array) -> Object {
        Object::Arr(a)
    }
}

impl From<Dictionary> for Object {
    fn from(d: Dictionary) -> (r: Object) {
        Object::Dict(d)
    }
}

impl vstd::std_specs::convert::FromSpecImpl<Dictionary> for Object {
    open spec fn obeys_from_spec() -> bool {
        true
    }

    open spec fn from_spec(d: Dictionary) -> Object {
        Object::Dict(d)
    }
}

/// Whether two key/value pairs have the same model: keys equal byte
/// for byte, values equal as models.
pub open spec fn pair_model_eq(x: (NvimString, Object), y: (NvimString, Object)) -> bool {
    x.0@ == y.0@ && value_of(x.1) == value_of(y.1)
}

/// Deep structural equality of two dynamic values: same kind, and the
/// payloads equal, recursively for containers and byte for byte for
/// strings.
pub fn deep_eq(a: &Object, b: &Object) -> (r: bool)
    ensures
        r == (a.value() == b.value()),
    decreases *a,
{
    match (a, b) {
        (Object::Nil, Object::Nil) => true,
        (Object::Boolean(x), Object::Boolean(y)) => x == y,
        (Object::Integer(x), Object::Integer(y)) => x == y,
        (Object::Float { bits: x }, Object::Float { bits: y }) => x == y,
        (Object::Str(xs), Object::Str(ys)) => xs.bytes_eq(ys),
        (Object::Handle(x), Object::Handle(y)) => x == y,
        (Object::LuaRef(x), Object::LuaRef(y)) => x == y,
        (Object::Arr(xs), Object::Arr(ys)) => {
            proof {
                lemma_values_of(xs@);
                lemma_values_of(ys@);
            }
            if xs.len() != ys.len() {
                assert(a.value() != b.value()) by {
                    assert(a.value()->Arr_0.len() != b.value()->Arr_0.len());
                };
                false
            } else {
                let n = xs.len();
                let mut i: usize = 0;
                let mut ok: bool = true;
                while i < n
                    invariant
                        n == xs@.len(),
                        i <= n,
                        xs@.len() == ys@.len(),
                        *a == Object::Arr(*xs),
                        *b == Object::Arr(*ys),
                        ok == (forall|j: int| 0 <= j < i
                            ==> #[trigger] value_of(xs@[j]) == value_of(ys@[j])),
                    decreases n - i,
                {
                    proof {
                        assert(decreases_to!(*a => a->Arr_0));
                        lemma_array_view_decreases(*xs);
                        assert(decreases_to!(xs@ => xs@[i as int]));
                        assert(decreases_to!(*a => xs@[i as int]));
                    }
                    let e = deep_eq(xs.get(i), ys.get(i));
                    ok = ok && e;
                    i += 1;
                }
                proof {
                    lemma_values_of(xs@);
                    lemma_values_of(ys@);
                    if ok {
                        assert(values_of(xs@) =~= values_of(ys@));
                    } else {
                        let j = choose|j: int| 0 <= j < xs@.len()
                            && value_of(xs@[j]) != value_of(ys@[j]);
                        assert(values_of(xs@)[j] != values_of(ys@)[j]);
                    }
                }
                ok
            }
        },
        (Object::Dict(xs), Object::Dict(ys)) => {
            proof {
                lemma_pair_values_of(xs@);
                lemma_pair_values_of(ys@);
            }
            if xs.len() != ys.len() {
                assert(a.value() != b.value()) by {
                    assert(a.value()->Dict_0.len() != b.value()->Dict_0.len());
                };
                false
            } else {
                let n = xs.len();
                let mut i: usize = 0;
                let mut ok: bool = true;
                while i < n
                    invariant
                        n == xs@.len(),
                        i <= n,
                        xs@.len() == ys@.len(),
                        *a == Object::Dict(*xs),
                        *b == Object::Dict(*ys),
                        ok == (forall|j: int| 0 <= j < i
                            ==> #[trigger] pair_model_eq(xs@[j], ys@[j])),
                    decreases n - i,
                {
                    proof {
                        assert(decreases_to!(*a => a->Dict_0));
                        lemma_dictionary_view_decreases(*xs);
                        assert(decreases_to!(xs@ => xs@[i as int]));
                        assert(decreases_to!(xs@[i as int] => xs@[i as int].1));
                        assert(decreases_to!(*a => xs@[i as int].1));
                    }
                    let px = xs.get_pair(i);
                    let py = ys.get_pair(i);
                    let ke = px.0.bytes_eq(&py.0);
                    let ve = deep_eq(&px.1, &py.1);
                    proof {
                        assert(pair_model_eq(xs@[i as int], ys@[i as int]) == (ke && ve));
                    }
                    ok = ok && ke && ve;
                    i += 1;
                }
                proof {
                    lemma_pair_values_of(xs@);
                    lemma_pair_values_of(ys@);
                    if ok {
                        assert forall|j: int| 0 <= j < xs@.len()
                            implies pair_values_of(xs@)[j] == pair_values_of(ys@)[j] by {
                            assert(pair_model_eq(xs@[j], ys@[j]));
                        }
                        assert(pair_values_of(xs@) =~= pair_values_of(ys@));
                    } else {
                        let j = choose|j: int| 0 <= j < xs@.len()
                            && !pair_model_eq(xs@[j], ys@[j]);
                        assert(pair_values_of(xs@)[j] != pair_values_of(ys@)[j]);
                    }
                }
                ok
            }
        },
        _ => false,
    }
}

} // verus!
