//! Bidirectional conversion between dynamic values and typed values.
//!
//! `ToObject` carries a typed value into a dynamic value; `FromObject`
//! carries a dynamic value back into a typed shape, failing when the
//! value's kind does not structurally match the shape. Both directions
//! are pinned to spec-level conversion functions on the models, so that
//! the round trip can be stated and proved once per shape.

use vstd::prelude::*;

use crate::object::Object;
use crate::object::ObjectKind;
use crate::object::Value;
use crate::object::value_of;
use crate::string::NvimString;

verus! {

/// Why a conversion failed, on the models: a mirror of
/// `ConversionError` with the key bytes in place of the owned key.
pub enum ConversionErrorValue {
    WrongKind { expected: ObjectKind, actual: ObjectKind },
    MissingField(Seq<u8>),
    OutOfRange,
}

/// Why a conversion between a dynamic value and a typed shape failed.
#[derive(Debug)]
pub enum ConversionError {
    /// The dynamic value's kind does not structurally match the
    /// requested shape; both kinds are named.
    WrongKind { expected: ObjectKind, actual: ObjectKind },
    /// A field the requested shape requires is missing from the
    /// dictionary payload; the key is named.
    MissingField(NvimString),
    /// A numeric payload does not fit the requested type, or a typed
    /// number cannot be represented as a dynamic value.
    OutOfRange,
}

impl View for ConversionError {
    type V = ConversionErrorValue;

    open spec fn view(&self) -> ConversionErrorValue {
        match self {
            ConversionError::WrongKind { expected, actual } => ConversionErrorValue::WrongKind {
                expected: *expected,
                actual: *actual,
            },
            ConversionError::MissingField(k) => ConversionErrorValue::MissingField(k@),
            ConversionError::OutOfRange => ConversionErrorValue::OutOfRange,
        }
    }
}

/// Decoding of a dynamic value into a typed shape.
pub trait FromObject: Sized + DeepView {
    /// What decoding yields on the model of the dynamic value: the
    /// model of the typed value, or the error.
    spec fn from_value(v: Value) -> Result<Self::V, ConversionErrorValue>;

    /// Decodes a dynamic value, consuming it.
    fn from_object(obj: Object) -> (r: Result<Self, ConversionError>)
        ensures
            match (r, Self::from_value(value_of(obj))) {
                (Ok(t), Ok(mv)) => t.deep_view() == mv,
                (Err(e), Err(me)) => e@ == me,
                _ => false,
            },
    ;
}

/// Encoding of a typed value as a dynamic value.
pub trait ToObject: Sized + DeepView {
    /// What encoding yields on the model of the typed value: the model
    /// of the dynamic value, or the error.
    spec fn to_value(v: Self::V) -> Result<Value, ConversionErrorValue>;

    /// Encodes this value as a dynamic value, consuming it; the input
    /// is never partially used up on failure.
    fn to_object(self) -> (r: Result<Object, ConversionError>)
        ensures
            match (r, Self::to_value(self.deep_view())) {
                (Ok(o), Ok(mv)) => value_of(o) == mv,
                (Err(e), Err(me)) => e@ == me,
                _ => false,
            },
    ;
}

impl FromObject for bool {
    open spec fn from_value(v: Value) -> Result<bool, ConversionErrorValue> {
        match v {
            Value::Bool(b) => Ok(b),
            _ => Err(ConversionErrorValue::WrongKind {
                expected: ObjectKind::Boolean,
                actual: v.kind(),
            }),
        }
    }

    fn from_object(obj: Object) -> (r: Result<bool, ConversionError>) {
        match obj {
            Object::Boolean(b) => Ok(b),
            o => Err(ConversionError::WrongKind {
                expected: ObjectKind::Boolean,
                actual: o.kind(),
            }),
        }
    }
}

impl ToObject for bool {
    open spec fn to_value(v: bool) -> Result<Value, ConversionErrorValue> {
        Ok(Value::Bool(v))
    }

    fn to_object(self) -> (r: Result<Object, ConversionError>) {
        Ok(Object::Boolean(self))
    }
}

impl FromObject for i64 {
    open spec fn from_value(v: Value) -> Result<i64, ConversionErrorValue> {
        match v {
            Value::Int(i) => Ok(i),
            _ => Err(ConversionErrorValue::WrongKind {
                expected: ObjectKind::Integer,
                actual: v.kind(),
            }),
        }
    }

    fn from_object(obj: Object) -> (r: Result<i64, ConversionError>) {
        match obj {
            Object::Integer(i) => Ok(i),
            o => Err(ConversionError::WrongKind {
                expected: ObjectKind::Integer,
                actual: o.kind(),
            }),
        }
    }
}

impl ToObject for i64 {
    open spec fn to_value(v: i64) -> Result<Value, ConversionErrorValue> {
        Ok(Value::Int(v))
    }

    fn to_object(self) -> (r: Result<Object, ConversionError>) {
        Ok(Object::Integer(self))
    }
}

impl FromObject for NvimString {
    open spec fn from_value(v: Value) -> Result<Seq<u8>, ConversionErrorValue> {
        match v {
            Value::Str(bytes) => Ok(bytes),
            _ => Err(ConversionErrorValue::WrongKind {
                expected: ObjectKind::Str,
                actual: v.kind(),
            }),
        }
    }

    fn from_object(obj: Object) -> (r: Result<NvimString, ConversionError>) {
        match obj {
            Object::Str(s) => Ok(s),
            o => Err(ConversionError::WrongKind {
                expected: ObjectKind::Str,
                actual: o.kind(),
            }),
        }
    }
}

impl ToObject for NvimString {
    open spec fn to_value(v: Seq<u8>) -> Result<Value, ConversionErrorValue> {
        Ok(Value::Str(v))
    }

    fn to_object(self) -> (r: Result<Object, ConversionError>) {
        Ok(Object::Str(self))
    }
}

impl FromObject for usize {
    open spec fn from_value(v: Value) -> Result<usize, ConversionErrorValue> {
        match v {
            Value::Int(i) => if 0 <= i <= usize::MAX {
                Ok(i as usize)
            } else {
                Err(ConversionErrorValue::OutOfRange)
            },
            _ => Err(ConversionErrorValue::WrongKind {
                expected: ObjectKind::Integer,
                actual: v.kind(),
            }),
        }
    }

    fn from_object(obj: Object) -> (r: Result<usize, ConversionError>) {
        match obj {
            Object::Integer(i) => {
                if i >= 0 && (i as u64) <= (usize::MAX as u64) {
                    Ok(i as usize)
                } else {
                    Err(ConversionError::OutOfRange)
                }
            },
            o => Err(ConversionError::WrongKind {
                expected: ObjectKind::Integer,
                actual: o.kind(),
            }),
        }
    }
}

impl ToObject for usize {
    open spec fn to_value(v: usize) -> Result<Value, ConversionErrorValue> {
        if v <= i64::MAX {
            Ok(Value::Int(v as i64))
        } else {
            Err(ConversionErrorValue::OutOfRange)
        }
    }

    fn to_object(self) -> (r: Result<Object, ConversionError>) {
        if (self as u64) <= (i64::MAX as u64) {
            Ok(Object::Integer(self as i64))
        } else {
            Err(ConversionError::OutOfRange)
        }
    }
}

impl FromObject for i32 {
    open spec fn from_value(v: Value) -> Result<i32, ConversionErrorValue> {
        match v {
            Value::Int(i) => if i32::MIN <= i <= i32::MAX {
                Ok(i as i32)
            } else {
                Err(ConversionErrorValue::OutOfRange)
            },
            _ => Err(ConversionErrorValue::WrongKind {
                expected: ObjectKind::Integer,
                actual: v.kind(),
            }),
        }
    }

    fn from_object(obj: Object) -> (r: Result<i32, ConversionError>) {
        match obj {
            Object::Integer(i) => {
                if (i32::MIN as i64) <= i && i <= (i32::MAX as i64) {
                    Ok(i as i32)
                } else {
                    Err(ConversionError::OutOfRange)
                }
            },
            o => Err(ConversionError::WrongKind {
                expected: ObjectKind::Integer,
                actual: o.kind(),
            }),
        }
    }
}

impl ToObject for i32 {
    open spec fn to_value(v: i32) -> Result<Value, ConversionErrorValue> {
        Ok(Value::Int(v as i64))
    }

    fn to_object(self) -> (r: Result<Object, ConversionError>) {
        Ok(Object::Integer(self as i64))
    }
}

impl FromObject for u32 {
    open spec fn from_value(v: Value) -> Result<u32, ConversionErrorValue> {
        match v {
            Value::Int(i) => if 0 <= i <= u32::MAX {
                Ok(i as u32)
            } else {
                Err(ConversionErrorValue::OutOfRange)
            },
            _ => Err(ConversionErrorValue::WrongKind {
                expected: ObjectKind::Integer,
                actual: v.kind(),
            }),
        }
    }

    fn from_object(obj: Object) -> (r: Result<u32, ConversionError>) {
        match obj {
            Object::Integer(i) => {
                if 0 <= i && i <= (u32::MAX as i64) {
                    Ok(i as u32)
                } else {
                    Err(ConversionError::OutOfRange)
                }
            },
            o => Err(ConversionError::WrongKind {
                expected: ObjectKind::Integer,
                actual: o.kind(),
            }),
        }
    }
}

impl ToObject for u32 {
    open spec fn to_value(v: u32) -> Result<Value, ConversionErrorValue> {
        Ok(Value::Int(v as i64))
    }

    fn to_object(self) -> (r: Result<Object, ConversionError>) {
        Ok(Object::Integer(self as i64))
    }
}

impl FromObject for String {
    open spec fn from_value(v: Value) -> Result<Seq<char>, ConversionErrorValue> {
        match v {
            Value::Str(bytes) => if vstd::utf8::valid_utf8(bytes) {
                Ok(vstd::utf8::decode_utf8(bytes))
            } else {
                Ok(crate::string::lossy_decode(bytes))
            },
            _ => Err(ConversionErrorValue::WrongKind {
                expected: ObjectKind::Str,
                actual: v.kind(),
            }),
        }
    }

    fn from_object(obj: Object) -> (r: Result<String, ConversionError>) {
        match obj {
            Object::Str(s) => Ok(s.to_string_lossy()),
            o => Err(ConversionError::WrongKind {
                expected: ObjectKind::Str,
                actual: o.kind(),
            }),
        }
    }
}

impl ToObject for String {
    open spec fn to_value(v: Seq<char>) -> Result<Value, ConversionErrorValue> {
        Ok(Value::Str(vstd::utf8::encode_utf8(v)))
    }

    fn to_object(self) -> (r: Result<Object, ConversionError>) {
        Ok(Object::Str(NvimString::from_str(self.as_str())))
    }
}

impl FromObject for crate::array::Array {
    open spec fn from_value(v: Value) -> Result<Seq<Value>, ConversionErrorValue> {
        match v {
            Value::Arr(s) => Ok(s),
            _ => Err(ConversionErrorValue::WrongKind {
                expected: ObjectKind::Arr,
                actual: v.kind(),
            }),
        }
    }

    fn from_object(obj: Object) -> (r: Result<crate::array::Array, ConversionError>) {
        match obj {
            Object::Arr(a) => Ok(a),
            o => Err(ConversionError::WrongKind {
                expected: ObjectKind::Arr,
                actual: o.kind(),
            }),
        }
    }
}

impl ToObject for crate::array::Array {
    open spec fn to_value(v: Seq<Value>) -> Result<Value, ConversionErrorValue> {
        Ok(Value::Arr(v))
    }

    fn to_object(self) -> (r: Result<Object, ConversionError>) {
        Ok(Object::Arr(self))
    }
}

impl FromObject for crate::dictionary::Dictionary {
    open spec fn from_value(v: Value) -> Result<Seq<(Seq<u8>, Value)>, ConversionErrorValue> {
        match v {
            Value::Dict(s) => Ok(s),
            _ => Err(ConversionErrorValue::WrongKind {
                expected: ObjectKind::Dict,
                actual: v.kind(),
            }),
        }
    }

    fn from_object(obj: Object) -> (r: Result<crate::dictionary::Dictionary, ConversionError>) {
        match obj {
            Object::Dict(d) => Ok(d),
            o => Err(ConversionError::WrongKind {
                expected: ObjectKind::Dict,
                actual: o.kind(),
            }),
        }
    }
}

impl ToObject for crate::dictionary::Dictionary {
    open spec fn to_value(v: Seq<(Seq<u8>, Value)>) -> Result<Value, ConversionErrorValue> {
        Ok(Value::Dict(v))
    }

    fn to_object(self) -> (r: Result<Object, ConversionError>) {
        Ok(Object::Dict(self))
    }
}

impl FromObject for Object {
    open spec fn from_value(v: Value) -> Result<Value, ConversionErrorValue> {
        Ok(v)
    }

    fn from_object(obj: Object) -> (r: Result<Object, ConversionError>) {
        Ok(obj)
    }
}

impl ToObject for Object {
    open spec fn to_value(v: Value) -> Result<Value, ConversionErrorValue> {
        Ok(v)
    }

    fn to_object(self) -> (r: Result<Object, ConversionError>) {
        Ok(self)
    }
}

impl<T: FromObject> FromObject for Option<T> {
    /// The nil-equivalent decodes to nothing; any other value must
    /// decode as the wrapped shape.
    open spec fn from_value(v: Value) -> Result<Option<T::V>, ConversionErrorValue> {
        if v is Nil {
            Ok(None)
        } else {
            match T::from_value(v) {
                Ok(t) => Ok(Some(t)),
                Err(e) => Err(e),
            }
        }
    }

    fn from_object(obj: Object) -> (r: Result<Option<T>, ConversionError>) {
        if obj.is_nil() {
            Ok(None)
        } else {
            match T::from_object(obj) {
                Ok(t) => Ok(Some(t)),
                Err(e) => Err(e),
            }
        }
    }
}

impl<T: ToObject> ToObject for Option<T> {
    open spec fn to_value(v: Option<T::V>) -> Result<Value, ConversionErrorValue> {
        match v {
            None => Ok(Value::Nil),
            Some(t) => T::to_value(t),
        }
    }

    fn to_object(self) -> (r: Result<Object, ConversionError>) {
        match self {
            None => Ok(Object::Nil),
            Some(t) => t.to_object(),
        }
    }
}

/// Elementwise decoding of a sequence of models, front to back; the
/// first element that fails decides the error.
pub open spec fn seq_from_values<T: FromObject>(s: Seq<Value>) -> Result<
    Seq<T::V>,
    ConversionErrorValue,
>
    decreases s.len(),
{
    if s.len() == 0 {
        Ok(Seq::empty())
    } else {
        match T::from_value(s[0]) {
            Err(e) => Err(e),
            Ok(t) => match seq_from_values::<T>(s.drop_first()) {
                Err(e) => Err(e),
                Ok(r) => Ok(Seq::empty().push(t) + r),
            },
        }
    }
}

/// Elementwise encoding of a sequence of typed models, front to back;
/// the first element that fails decides the error.
pub open spec fn seq_to_values<T: ToObject>(s: Seq<T::V>) -> Result<
    Seq<Value>,
    ConversionErrorValue,
>
    decreases s.len(),
{
    if s.len() == 0 {
        Ok(Seq::empty())
    } else {
        match T::to_value(s[0]) {
            Err(e) => Err(e),
            Ok(v) => match seq_to_values::<T>(s.drop_first()) {
                Err(e) => Err(e),
                Ok(r) => Ok(Seq::empty().push(v) + r),
            },
        }
    }
}

impl<T: FromObject> FromObject for Vec<T> {
    open spec fn from_value(v: Value) -> Result<Seq<T::V>, ConversionErrorValue> {
        match v {
            Value::Arr(s) => seq_from_values::<T>(s),
            _ => Err(ConversionErrorValue::WrongKind {
                expected: ObjectKind::Arr,
                actual: v.kind(),
            }),
        }
    }

    fn from_object(obj: Object) -> (r: Result<Vec<T>, ConversionError>) {
        match obj {
            Object::Arr(a) => {
                let ghost orig: Seq<Value> = crate::object::values_of(a@);
                proof {
                    assert(value_of(obj) == Value::Arr(orig));
                }
                let mut objs = a.into_vec();
                let mut out: Vec<T> = Vec::new();
                proof {
                    broadcast use vstd::std_specs::vec::group_vec_axioms;

                    assert(crate::object::values_of(objs@) == orig);
                    if seq_from_values::<T>(orig) is Ok {
                        let rest = seq_from_values::<T>(orig)->Ok_0;
                        assert(out.deep_view() + rest =~= rest);
                    }
                }
                loop
                    invariant
                        value_of(obj) == Value::Arr(orig),
                        (match seq_from_values::<T>(crate::object::values_of(objs@)) {
                            Ok(rest) => seq_from_values::<T>(orig) == Ok::<
                                Seq<T::V>,
                                ConversionErrorValue,
                            >(out.deep_view() + rest),
                            Err(e) => seq_from_values::<T>(orig) == Err::<
                                Seq<T::V>,
                                ConversionErrorValue,
                            >(e),
                        }),
                    decreases objs@.len(),
                {
                    broadcast use vstd::std_specs::vec::group_vec_axioms;

                    if objs.len() == 0 {
                        proof {
                            assert(crate::object::values_of(objs@) =~= Seq::<Value>::empty());
                            assert(seq_from_values::<T>(crate::object::values_of(objs@))
                                == Ok::<Seq<T::V>, ConversionErrorValue>(Seq::<T::V>::empty()));
                            assert(out.deep_view() + Seq::<T::V>::empty() =~= out.deep_view());
                            assert(seq_from_values::<T>(orig) == Ok::<
                                Seq<T::V>,
                                ConversionErrorValue,
                            >(out.deep_view()));
                            assert(value_of(obj) == Value::Arr(orig));
                        }
                        return Ok(out);
                    }
                    let ghost pre = objs@;
                    let o = objs.remove(0);
                    proof {
                        crate::object::lemma_values_of(pre);
                        crate::object::lemma_values_of(objs@);
                        assert(objs@ =~= pre.drop_first());
                        assert(crate::object::values_of(objs@) =~= crate::object::values_of(
                            pre,
                        ).drop_first()) by {
                            crate::object::lemma_values_of(pre.drop_first());
                            assert(crate::object::values_of(pre).len() == pre.len());
                        }
                        assert(crate::object::values_of(pre)[0] == value_of(pre[0]));
                    }
                    match T::from_object(o) {
                        Err(e) => {
                            proof {
                                assert(crate::object::values_of(pre).len() > 0);
                                assert(seq_from_values::<T>(crate::object::values_of(pre))
                                    == Err::<Seq<T::V>, ConversionErrorValue>(e@));
                                assert(seq_from_values::<T>(orig) == Err::<
                                    Seq<T::V>,
                                    ConversionErrorValue,
                                >(e@));
                                assert(value_of(obj) == Value::Arr(orig));
                            }
                            return Err(e);
                        },
                        Ok(t) => {
                            let ghost out_pre = out.deep_view();
                            out.push(t);
                            proof {
                                assert(out.deep_view() =~= out_pre.push(t.deep_view()));
                                if seq_from_values::<T>(crate::object::values_of(objs@)) is Ok {
                                    let rest = seq_from_values::<T>(
                                        crate::object::values_of(objs@),
                                    )->Ok_0;
                                    assert(out_pre + (Seq::empty().push(t.deep_view()) + rest)
                                        =~= out.deep_view() + rest);
                                }
                            }
                        },
                    }
                }
            },
            o => Err(ConversionError::WrongKind {
                expected: ObjectKind::Arr,
                actual: o.kind(),
            }),
        }
    }
}

impl<T: ToObject> ToObject for Vec<T> {
    open spec fn to_value(v: Seq<T::V>) -> Result<Value, ConversionErrorValue> {
        match seq_to_values::<T>(v) {
            Ok(vs) => Ok(Value::Arr(vs)),
            Err(e) => Err(e),
        }
    }

    fn to_object(self) -> (r: Result<Object, ConversionError>) {
        let ghost orig: Seq<T::V> = self.deep_view();
        let mut items = self;
        let mut out: Vec<Object> = Vec::new();
        proof {
            broadcast use vstd::std_specs::vec::group_vec_axioms;

            if seq_to_values::<T>(orig) is Ok {
                let vs = seq_to_values::<T>(orig)->Ok_0;
                assert(crate::object::values_of(out@) + vs =~= vs);
            }
        }
        loop
            invariant
                self.deep_view() == orig,
                (match seq_to_values::<T>(items.deep_view()) {
                    Ok(vs) => seq_to_values::<T>(orig) == Ok::<Seq<Value>, ConversionErrorValue>(
                        crate::object::values_of(out@) + vs,
                    ),
                    Err(e) => seq_to_values::<T>(orig) == Err::<Seq<Value>, ConversionErrorValue>(
                        e,
                    ),
                }),
            decreases items@.len(),
        {
            broadcast use vstd::std_specs::vec::group_vec_axioms;

            if items.len() == 0 {
                proof {
                    assert(items.deep_view() =~= Seq::<T::V>::empty());
                    assert(seq_to_values::<T>(items.deep_view()) == Ok::<
                        Seq<Value>,
                        ConversionErrorValue,
                    >(Seq::<Value>::empty()));
                    assert(crate::object::values_of(out@) + Seq::<Value>::empty()
                        =~= crate::object::values_of(out@));
                    assert(seq_to_values::<T>(orig) == Ok::<Seq<Value>, ConversionErrorValue>(
                        crate::object::values_of(out@),
                    ));
                }
                let arr = crate::array::Array::from_vec(out);
                return Ok(Object::Arr(arr));
            }
            let ghost pre_deep = items.deep_view();
            let t = items.remove(0);
            proof {
                assert(pre_deep.len() > 0);
                assert(t.deep_view() == pre_deep[0]);
                assert(items.deep_view() =~= pre_deep.drop_first());
            }
            match t.to_object() {
                Err(e) => {
                    proof {
                        assert(seq_to_values::<T>(pre_deep) == Err::<
                            Seq<Value>,
                            ConversionErrorValue,
                        >(e@));
                    }
                    return Err(e);
                },
                Ok(o) => {
                    let ghost out_pre = out@;
                    out.push(o);
                    proof {
                        assert(out@.drop_last() =~= out_pre);
                        assert(crate::object::values_of(out@) == crate::object::values_of(
                            out_pre,
                        ).push(value_of(o)));
                        if seq_to_values::<T>(items.deep_view()) is Ok {
                            let vs = seq_to_values::<T>(items.deep_view())->Ok_0;
                            assert(crate::object::values_of(out_pre) + (Seq::<
                                Value,
                            >::empty().push(value_of(o)) + vs) =~= crate::object::values_of(out@)
                                + vs);
                        }
                    }
                },
            }
        }
    }
}

/// What decoding a required field yields on the models: the missing
/// key is an error of its own, distinct from a wrong kind.
pub open spec fn spec_required_field<T: FromObject>(
    ps: Seq<(Seq<u8>, Value)>,
    key: Seq<u8>,
) -> Result<T::V, ConversionErrorValue> {
    match crate::dictionary::value_lookup(ps, key) {
        None => Err(ConversionErrorValue::MissingField(key)),
        Some(v) => T::from_value(v),
    }
}

/// What decoding an optional field yields on the models: an absent key
/// and a key mapped to the nil-equivalent both yield nothing.
pub open spec fn spec_optional_field<T: FromObject>(
    ps: Seq<(Seq<u8>, Value)>,
    key: Seq<u8>,
) -> Result<Option<T::V>, ConversionErrorValue> {
    match crate::dictionary::value_lookup(ps, key) {
        None => Ok(None),
        Some(v) => <Option<T> as FromObject>::from_value(v),
    }
}

/// Decodes the field `key` of a dictionary, required: a missing key is
/// an error naming the key.
pub fn required_field<T: FromObject>(
    dict: &crate::dictionary::Dictionary,
    key: &NvimString,
) -> (r: Result<T, ConversionError>)
    ensures
        match (r, spec_required_field::<T>(dict.deep_view(), key@)) {
            (Ok(t), Ok(mv)) => t.deep_view() == mv,
            (Err(e), Err(me)) => e@ == me,
            _ => false,
        },
{
    proof {
        crate::dictionary::lemma_value_lookup(dict@, key@);
    }
    match dict.get(key) {
        None => Err(ConversionError::MissingField(key.deep_clone())),
        Some(o) => T::from_object(o.deep_clone()),
    }
}

/// Decodes the field `key` of a dictionary, optional: an absent key
/// and a key mapped to the nil-equivalent both decode to nothing.
pub fn optional_field<T: FromObject>(
    dict: &crate::dictionary::Dictionary,
    key: &NvimString,
) -> (r: Result<Option<T>, ConversionError>)
    ensures
        match (r, spec_optional_field::<T>(dict.deep_view(), key@)) {
            (Ok(t), Ok(mv)) => t.deep_view() == mv,
            (Err(e), Err(me)) => e@ == me,
            _ => false,
        },
{
    proof {
        crate::dictionary::lemma_value_lookup(dict@, key@);
    }
    match dict.get(key) {
        None => Ok(None),
        Some(o) => <Option<T> as FromObject>::from_object(o.deep_clone()),
    }
}

/// Law: decoding what encoding produced yields the original boolean.
pub proof fn lemma_round_trip_bool(v: bool)
    ensures
        <bool as ToObject>::to_value(v) matches Ok(val) && <bool as FromObject>::from_value(val)
            == Ok::<bool, ConversionErrorValue>(v),
{
}

/// Law: decoding what encoding produced yields the original integer.
pub proof fn lemma_round_trip_i64(v: i64)
    ensures
        <i64 as ToObject>::to_value(v) matches Ok(val) && <i64 as FromObject>::from_value(val)
            == Ok::<i64, ConversionErrorValue>(v),
{
}

/// Law: a size that the dynamic integer can carry decodes back to
/// itself, and one it cannot carry is rejected before anything is
/// encoded.
pub proof fn lemma_round_trip_usize(v: usize)
    ensures
        v <= i64::MAX ==> (<usize as ToObject>::to_value(v) matches Ok(val)
            && <usize as FromObject>::from_value(val) == Ok::<usize, ConversionErrorValue>(v)),
        v > i64::MAX ==> <usize as ToObject>::to_value(v) == Err::<Value, ConversionErrorValue>(
            ConversionErrorValue::OutOfRange,
        ),
{
}

/// Law: every 32-bit integer, signed or not, round-trips through the
/// wider dynamic integer.
pub proof fn lemma_round_trip_i32_u32(v: i32, w: u32)
    ensures
        <i32 as ToObject>::to_value(v) matches Ok(val) && <i32 as FromObject>::from_value(val)
            == Ok::<i32, ConversionErrorValue>(v),
        <u32 as ToObject>::to_value(w) matches Ok(val) && <u32 as FromObject>::from_value(val)
            == Ok::<u32, ConversionErrorValue>(w),
{
}

/// Law: decoding what encoding produced yields the original string,
/// byte for byte.
pub proof fn lemma_round_trip_string(b: Seq<u8>)
    ensures
        <NvimString as ToObject>::to_value(b) matches Ok(val)
            && <NvimString as FromObject>::from_value(val) == Ok::<Seq<u8>, ConversionErrorValue>(
            b,
        ),
{
}

/// Law: decoding what encoding produced yields the original host
/// string; a host string is always valid UTF-8, so nothing is lost.
pub proof fn lemma_round_trip_host_string(chars: Seq<char>)
    ensures
        <String as ToObject>::to_value(chars) matches Ok(val)
            && <String as FromObject>::from_value(val) == Ok::<Seq<char>, ConversionErrorValue>(
            chars,
        ),
{
    vstd::utf8::encode_utf8_valid_utf8(chars);
    vstd::utf8::encode_utf8_decode_utf8(chars);
}

/// Law: a dynamic value passes through its own conversion unchanged.
pub proof fn lemma_round_trip_object(v: Value)
    ensures
        <Object as ToObject>::to_value(v) matches Ok(val) && <Object as FromObject>::from_value(
            val,
        ) == Ok::<Value, ConversionErrorValue>(v),
{
}

/// Law: decoding what encoding produced yields the original array.
pub proof fn lemma_round_trip_array(s: Seq<Value>)
    ensures
        <crate::array::Array as ToObject>::to_value(s) matches Ok(val)
            && <crate::array::Array as FromObject>::from_value(val) == Ok::<
            Seq<Value>,
            ConversionErrorValue,
        >(s),
{
}

/// Law: decoding what encoding produced yields the original
/// dictionary.
pub proof fn lemma_round_trip_dictionary(s: Seq<(Seq<u8>, Value)>)
    ensures
        <crate::dictionary::Dictionary as ToObject>::to_value(s) matches Ok(val)
            && <crate::dictionary::Dictionary as FromObject>::from_value(val) == Ok::<
            Seq<(Seq<u8>, Value)>,
            ConversionErrorValue,
        >(s),
{
}

/// Law: when every element of a shape round-trips, a whole sequence of
/// them round-trips, in order.
pub proof fn lemma_round_trip_seq<T: FromObject + ToObject>(s: Seq<<T as DeepView>::V>)
    requires
        forall|x: <T as DeepView>::V| match #[trigger] <T as ToObject>::to_value(x) {
            Ok(val) => <T as FromObject>::from_value(val) == Ok::<
                <T as DeepView>::V,
                ConversionErrorValue,
            >(x),
            Err(_) => true,
        },
    ensures
        seq_to_values::<T>(s) matches Ok(vs) ==> seq_from_values::<T>(vs) == Ok::<
            Seq<<T as DeepView>::V>,
            ConversionErrorValue,
        >(s),
    decreases s.len(),
{
    if s.len() == 0 {
        assert(s =~= Seq::<<T as DeepView>::V>::empty());
    } else {
        lemma_round_trip_seq::<T>(s.drop_first());
        match <T as ToObject>::to_value(s[0]) {
            Err(_) => {},
            Ok(v0) => {
                match seq_to_values::<T>(s.drop_first()) {
                    Err(_) => {},
                    Ok(rest) => {
                        let vs = Seq::<Value>::empty().push(v0) + rest;
                        assert(vs[0] == v0);
                        assert(vs.drop_first() =~= rest);
                        assert(Seq::<<T as DeepView>::V>::empty().push(s[0]) + s.drop_first()
                            =~= s);
                    },
                }
            },
        }
    }
}

/// Law: when every element of a shape round-trips, a vector of them
/// round-trips, in order.
pub proof fn lemma_round_trip_vec<T: FromObject + ToObject>(s: Seq<<T as DeepView>::V>)
    requires
        forall|x: <T as DeepView>::V| match #[trigger] <T as ToObject>::to_value(x) {
            Ok(val) => <T as FromObject>::from_value(val) == Ok::<
                <T as DeepView>::V,
                ConversionErrorValue,
            >(x),
            Err(_) => true,
        },
    ensures
        <Vec<T> as ToObject>::to_value(s) matches Ok(val) ==> <Vec<T> as FromObject>::from_value(
            val,
        ) == Ok::<Seq<<T as DeepView>::V>, ConversionErrorValue>(s),
{
    lemma_round_trip_seq::<T>(s);
}

/// Law: when the wrapped shape round-trips and never encodes to the
/// nil-equivalent, an optional value round-trips; nothing stays
/// nothing, and something stays something.
pub proof fn lemma_round_trip_option<T: FromObject + ToObject>(v: Option<<T as DeepView>::V>)
    requires
        forall|x: <T as DeepView>::V| match #[trigger] <T as ToObject>::to_value(x) {
            Ok(val) => <T as FromObject>::from_value(val) == Ok::<
                <T as DeepView>::V,
                ConversionErrorValue,
            >(x),
            Err(_) => true,
        },
        forall|x: <T as DeepView>::V| match #[trigger] <T as ToObject>::to_value(x) {
            Ok(val) => !(val is Nil),
            Err(_) => true,
        },
    ensures
        <Option<T> as ToObject>::to_value(v) matches Ok(val)
            ==> <Option<T> as FromObject>::from_value(val) == Ok::<
            Option<<T as DeepView>::V>,
            ConversionErrorValue,
        >(v),
{
}

/// Law: an optional integer round-trips; the integer shape meets both
/// hypotheses of the optional law.
pub proof fn lemma_round_trip_option_int(v: Option<i64>)
    ensures
        <Option<i64> as ToObject>::to_value(v) matches Ok(val)
            ==> <Option<i64> as FromObject>::from_value(val) == Ok::<
            Option<i64>,
            ConversionErrorValue,
        >(v),
{
    lemma_round_trip_option::<i64>(v);
}

/// Law: a vector of integers round-trips, in order.
pub proof fn lemma_round_trip_vec_int(s: Seq<i64>)
    ensures
        <Vec<i64> as ToObject>::to_value(s) matches Ok(val)
            ==> <Vec<i64> as FromObject>::from_value(val) == Ok::<Seq<i64>, ConversionErrorValue>(
            s,
        ),
{
    lemma_round_trip_vec::<i64>(s);
}

/// Law: a dynamic value of one kind never decodes as a shape expecting
/// another kind; the failure names both the expected and the actual
/// kind.
pub proof fn lemma_kind_mismatch(v: Value)
    ensures
        v.kind() != ObjectKind::Boolean ==> <bool as FromObject>::from_value(v) == Err::<
            bool,
            ConversionErrorValue,
        >(
            ConversionErrorValue::WrongKind {
                expected: ObjectKind::Boolean,
                actual: v.kind(),
            },
        ),
        v.kind() != ObjectKind::Integer ==> <i64 as FromObject>::from_value(v) == Err::<
            i64,
            ConversionErrorValue,
        >(
            ConversionErrorValue::WrongKind {
                expected: ObjectKind::Integer,
                actual: v.kind(),
            },
        ),
        v.kind() != ObjectKind::Integer ==> <usize as FromObject>::from_value(v) == Err::<
            usize,
            ConversionErrorValue,
        >(
            ConversionErrorValue::WrongKind {
                expected: ObjectKind::Integer,
                actual: v.kind(),
            },
        ),
        v.kind() != ObjectKind::Integer ==> <i32 as FromObject>::from_value(v) == Err::<
            i32,
            ConversionErrorValue,
        >(
            ConversionErrorValue::WrongKind {
                expected: ObjectKind::Integer,
                actual: v.kind(),
            },
        ),
        v.kind() != ObjectKind::Integer ==> <u32 as FromObject>::from_value(v) == Err::<
            u32,
            ConversionErrorValue,
        >(
            ConversionErrorValue::WrongKind {
                expected: ObjectKind::Integer,
                actual: v.kind(),
            },
        ),
        v.kind() != ObjectKind::Str ==> <NvimString as FromObject>::from_value(v) == Err::<
            Seq<u8>,
            ConversionErrorValue,
        >(
            ConversionErrorValue::WrongKind {
                expected: ObjectKind::Str,
                actual: v.kind(),
            },
        ),
        v.kind() != ObjectKind::Str ==> <String as FromObject>::from_value(v) == Err::<
            Seq<char>,
            ConversionErrorValue,
        >(
            ConversionErrorValue::WrongKind {
                expected: ObjectKind::Str,
                actual: v.kind(),
            },
        ),
        v.kind() != ObjectKind::Arr ==> <crate::array::Array as FromObject>::from_value(v)
            == Err::<Seq<Value>, ConversionErrorValue>(
            ConversionErrorValue::WrongKind {
                expected: ObjectKind::Arr,
                actual: v.kind(),
            },
        ),
        v.kind() != ObjectKind::Dict ==> <crate::dictionary::Dictionary as FromObject>::from_value(
            v,
        ) == Err::<Seq<(Seq<u8>, Value)>, ConversionErrorValue>(
            ConversionErrorValue::WrongKind {
                expected: ObjectKind::Dict,
                actual: v.kind(),
            },
        ),
{
}

/// Law: a dynamic value of any kind but the array never decodes as a
/// vector shape, whatever the element shape is.
pub proof fn lemma_kind_mismatch_vec<T: FromObject>(v: Value)
    ensures
        v.kind() != ObjectKind::Arr ==> <Vec<T> as FromObject>::from_value(v) == Err::<
            Seq<<T as DeepView>::V>,
            ConversionErrorValue,
        >(
            ConversionErrorValue::WrongKind {
                expected: ObjectKind::Arr,
                actual: v.kind(),
            },
        ),
{
}

/// Law: an absent key and a key mapped to the nil-equivalent both
/// decode an optional field to nothing; a key mapped to any other
/// value decodes as the wrapped shape.
pub proof fn lemma_optional_field_decoding<T: FromObject>(ps: Seq<(Seq<u8>, Value)>, key: Seq<u8>)
    ensures
        crate::dictionary::value_lookup(ps, key) is None ==> spec_optional_field::<T>(ps, key)
            == Ok::<Option<<T as DeepView>::V>, ConversionErrorValue>(None),
        crate::dictionary::value_lookup(ps, key) == Some(Value::Nil) ==> spec_optional_field::<T>(
            ps,
            key,
        ) == Ok::<Option<<T as DeepView>::V>, ConversionErrorValue>(None),
        match crate::dictionary::value_lookup(ps, key) {
            Some(v) => !(v is Nil) ==> spec_optional_field::<T>(ps, key) == (match <T as FromObject>::from_value(v) {
                Ok(t) => Ok::<Option<<T as DeepView>::V>, ConversionErrorValue>(Some(t)),
                Err(e) => Err(e),
            }),
            None => true,
        },
{
}

} // verus!
