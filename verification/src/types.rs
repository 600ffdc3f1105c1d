//! Typed shapes carried across the boundary as dynamic values.

use vstd::prelude::*;

use crate::conversion::ConversionError;
use crate::conversion::ConversionErrorValue;
use crate::conversion::FromObject;
use crate::conversion::ToObject;
use crate::dictionary::Dictionary;
use crate::dictionary::value_lookup;
use crate::object::Object;
use crate::object::ObjectKind;
use crate::object::Value;
use crate::string::NvimString;
use vstd::string::StringSliceAdditionalSpecFns;

verus! {

/// The bytes of the key under which a position's row travels.
pub open spec fn row_key_bytes() -> Seq<u8> {
    ("row").spec_bytes()
}

/// The bytes of the key under which a position's column travels.
pub open spec fn col_key_bytes() -> Seq<u8> {
    ("col").spec_bytes()
}

/// The two field keys of a position hold different bytes.
pub proof fn lemma_position_keys_differ()
    ensures
        row_key_bytes() != col_key_bytes(),
{
    reveal_strlit("row");
    reveal_strlit("col");
    assert(vstd::utf8::is_ascii_chars("row"@));
    assert(vstd::utf8::is_ascii_chars("col"@));
    vstd::utf8::is_ascii_chars_encode_utf8("row"@);
    vstd::utf8::is_ascii_chars_encode_utf8("col"@);
    assert(row_key_bytes()[0] == 'r' as u8);
    assert(col_key_bytes()[0] == 'c' as u8);
}

/// A cell position: a row and a column, both starting at zero. Encoded
/// as a dictionary holding the two integer fields `row` and `col`.
#[derive(Clone, Copy, Debug, PartialEq, Eq, Structural)]
pub struct Position {
    pub row: usize,
    pub col: usize,
}

impl View for Position {
    type V = Position;

    open spec fn view(&self) -> Position {
        *self
    }
}

impl DeepView for Position {
    type V = Position;

    open spec fn deep_view(&self) -> Position {
        *self
    }
}

impl Position {
    /// The key under which the row travels.
    pub fn row_key() -> (r: NvimString)
        ensures
            r@ == row_key_bytes(),
    {
        NvimString::from_str("row")
    }

    /// The key under which the column travels.
    pub fn col_key() -> (r: NvimString)
        ensures
            r@ == col_key_bytes(),
    {
        NvimString::from_str("col")
    }
}

impl FromObject for Position {
    open spec fn from_value(v: Value) -> Result<Position, ConversionErrorValue> {
        match v {
            Value::Dict(ps) => match value_lookup(ps, row_key_bytes()) {
                None => Err(ConversionErrorValue::MissingField(row_key_bytes())),
                Some(rv) => match <usize as FromObject>::from_value(rv) {
                    Err(e) => Err(e),
                    Ok(row) => match value_lookup(ps, col_key_bytes()) {
                        None => Err(ConversionErrorValue::MissingField(col_key_bytes())),
                        Some(cv) => match <usize as FromObject>::from_value(cv) {
                            Err(e) => Err(e),
                            Ok(col) => Ok(Position { row, col }),
                        },
                    },
                },
            },
            _ => Err(ConversionErrorValue::WrongKind {
                expected: ObjectKind::Dict,
                actual: v.kind(),
            }),
        }
    }

    fn from_object(obj: Object) -> (r: Result<Position, ConversionError>) {
        match obj {
            Object::Dict(d) => {
                let row_field = crate::conversion::required_field::<usize>(&d, &Position::row_key());
                match row_field {
                    Err(e) => Err(e),
                    Ok(row) => {
                        let col_field = crate::conversion::required_field::<usize>(
                            &d,
                            &Position::col_key(),
                        );
                        match col_field {
                            Err(e) => Err(e),
                            Ok(col) => Ok(Position { row, col }),
                        }
                    },
                }
            },
            o => Err(ConversionError::WrongKind {
                expected: ObjectKind::Dict,
                actual: o.kind(),
            }),
        }
    }
}

impl ToObject for Position {
    open spec fn to_value(p: Position) -> Result<Value, ConversionErrorValue> {
        if p.row <= i64::MAX && p.col <= i64::MAX {
            Ok(Value::Dict(
                seq![
                    (row_key_bytes(), Value::Int(p.row as i64)),
                    (col_key_bytes(), Value::Int(p.col as i64)),
                ],
            ))
        } else {
            Err(ConversionErrorValue::OutOfRange)
        }
    }

    fn to_object(self) -> (r: Result<Object, ConversionError>) {
        if (self.row as u64) <= (i64::MAX as u64) && (self.col as u64) <= (i64::MAX as u64) {
            let mut d = Dictionary::new();
            d.insert(Position::row_key(), Object::Integer(self.row as i64));
            proof {
                lemma_position_keys_differ();
                crate::dictionary::lemma_key_index(d@, col_key_bytes());
            }
            d.insert(Position::col_key(), Object::Integer(self.col as i64));
            proof {
                crate::object::lemma_pair_values_of(d@);
                assert(crate::object::pair_values_of(d@) =~= seq![
                    (row_key_bytes(), Value::Int(self.row as i64)),
                    (col_key_bytes(), Value::Int(self.col as i64)),
                ]);
            }
            Ok(Object::Dict(d))
        } else {
            Err(ConversionError::OutOfRange)
        }
    }
}

/// Law: a position whose row and column the dynamic integer can carry
/// decodes back to itself from its own encoding.
pub proof fn lemma_round_trip_position(p: Position)
    ensures
        p.row <= i64::MAX && p.col <= i64::MAX ==> (<Position as ToObject>::to_value(p) matches Ok(
            val,
        ) && <Position as FromObject>::from_value(val) == Ok::<Position, ConversionErrorValue>(p)),
{
    if p.row <= i64::MAX && p.col <= i64::MAX {
        lemma_position_keys_differ();
        let ps = seq![
            (row_key_bytes(), Value::Int(p.row as i64)),
            (col_key_bytes(), Value::Int(p.col as i64)),
        ];
        assert(ps.drop_first() =~= seq![(col_key_bytes(), Value::Int(p.col as i64))]);
        assert(value_lookup(ps, row_key_bytes()) == Some(Value::Int(p.row as i64)));
        assert(value_lookup(ps.drop_first(), col_key_bytes()) == Some(
            Value::Int(p.col as i64),
        ));
        assert(value_lookup(ps, col_key_bytes()) == Some(Value::Int(p.col as i64)));
    }
}

/// The bytes of the positional names a mark's fields answer to when
/// one is missing.
pub open spec fn buffer_key_bytes() -> Seq<u8> {
    ("buffer").spec_bytes()
}

pub open spec fn name_key_bytes() -> Seq<u8> {
    ("name").spec_bytes()
}

/// Model of a named mark's position.
pub struct MarkValue {
    pub row: usize,
    pub col: usize,
    pub buffer: i32,
    pub name: Seq<u8>,
}

/// The position of a named mark: a (1,0)-indexed row and column, the
/// handle of the buffer the mark sits in, and the buffer's name.
/// Encoded as an array of the four values in that order; an array with
/// too few elements names the first field it cannot fill.
#[derive(Debug)]
pub struct Mark {
    pub row: usize,
    pub col: usize,
    pub buffer: i32,
    pub name: NvimString,
}

impl DeepView for Mark {
    type V = MarkValue;

    open spec fn deep_view(&self) -> MarkValue {
        MarkValue { row: self.row, col: self.col, buffer: self.buffer, name: self.name@ }
    }
}

impl FromObject for Mark {
    open spec fn from_value(v: Value) -> Result<MarkValue, ConversionErrorValue> {
        match v {
            Value::Arr(s) => if s.len() < 1 {
                Err(ConversionErrorValue::MissingField(row_key_bytes()))
            } else {
                match <usize as FromObject>::from_value(s[0]) {
                    Err(e) => Err(e),
                    Ok(row) => if s.len() < 2 {
                        Err(ConversionErrorValue::MissingField(col_key_bytes()))
                    } else {
                        match <usize as FromObject>::from_value(s[1]) {
                            Err(e) => Err(e),
                            Ok(col) => if s.len() < 3 {
                                Err(ConversionErrorValue::MissingField(buffer_key_bytes()))
                            } else {
                                match s[2] {
                                    Value::Handle(h) => if s.len() < 4 {
                                        Err(ConversionErrorValue::MissingField(name_key_bytes()))
                                    } else {
                                        match <NvimString as FromObject>::from_value(s[3]) {
                                            Err(e) => Err(e),
                                            Ok(name) => Ok(
                                                MarkValue { row, col, buffer: h, name },
                                            ),
                                        }
                                    },
                                    _ => Err(ConversionErrorValue::WrongKind {
                                        expected: ObjectKind::Handle,
                                        actual: s[2].kind(),
                                    }),
                                }
                            },
                        }
                    },
                }
            },
            _ => Err(ConversionErrorValue::WrongKind {
                expected: ObjectKind::Arr,
                actual: v.kind(),
            }),
        }
    }

    fn from_object(obj: Object) -> (r: Result<Mark, ConversionError>) {
        match obj {
            Object::Arr(a) => {
                proof {
                    crate::object::lemma_values_of(a@);
                }
                let row: usize = match a.try_get(0) {
                    None => {
                        return Err(ConversionError::MissingField(Position::row_key()));
                    },
                    Some(o) => match <usize as FromObject>::from_object(o.deep_clone()) {
                        Err(e) => {
                            return Err(e);
                        },
                        Ok(row) => row,
                    },
                };
                let col: usize = match a.try_get(1) {
                    None => {
                        return Err(ConversionError::MissingField(Position::col_key()));
                    },
                    Some(o) => match <usize as FromObject>::from_object(o.deep_clone()) {
                        Err(e) => {
                            return Err(e);
                        },
                        Ok(col) => col,
                    },
                };
                let buffer: i32 = match a.try_get(2) {
                    None => {
                        return Err(ConversionError::MissingField(NvimString::from_str("buffer")));
                    },
                    Some(o) => match o {
                        Object::Handle(h) => *h,
                        other => {
                            return Err(ConversionError::WrongKind {
                                expected: ObjectKind::Handle,
                                actual: other.kind(),
                            });
                        },
                    },
                };
                let name: NvimString = match a.try_get(3) {
                    None => {
                        return Err(ConversionError::MissingField(NvimString::from_str("name")));
                    },
                    Some(o) => match <NvimString as FromObject>::from_object(o.deep_clone()) {
                        Err(e) => {
                            return Err(e);
                        },
                        Ok(name) => name,
                    },
                };
                Ok(Mark { row, col, buffer, name })
            },
            o => Err(ConversionError::WrongKind {
                expected: ObjectKind::Arr,
                actual: o.kind(),
            }),
        }
    }
}

impl ToObject for Mark {
    open spec fn to_value(m: MarkValue) -> Result<Value, ConversionErrorValue> {
        if m.row <= i64::MAX && m.col <= i64::MAX {
            Ok(Value::Arr(
                seq![
                    Value::Int(m.row as i64),
                    Value::Int(m.col as i64),
                    Value::Handle(m.buffer),
                    Value::Str(m.name),
                ],
            ))
        } else {
            Err(ConversionErrorValue::OutOfRange)
        }
    }

    fn to_object(self) -> (r: Result<Object, ConversionError>) {
        if (self.row as u64) <= (i64::MAX as u64) && (self.col as u64) <= (i64::MAX as u64) {
            let ghost name_bytes = self.name@;
            let mut items: Vec<Object> = Vec::new();
            items.push(Object::Integer(self.row as i64));
            items.push(Object::Integer(self.col as i64));
            items.push(Object::Handle(self.buffer));
            items.push(Object::Str(self.name));
            let arr = crate::array::Array::from_vec(items);
            proof {
                crate::object::lemma_values_of(arr@);
                assert(crate::object::values_of(arr@) =~= seq![
                    Value::Int(self.row as i64),
                    Value::Int(self.col as i64),
                    Value::Handle(self.buffer),
                    Value::Str(name_bytes),
                ]);
            }
            Ok(Object::Arr(arr))
        } else {
            Err(ConversionError::OutOfRange)
        }
    }
}

/// Law: a dynamic value of any kind but the dictionary never decodes
/// as a position, and one of any kind but the array never decodes as a
/// mark; the failure names both kinds.
pub proof fn lemma_kind_mismatch_shapes(v: Value)
    ensures
        v.kind() != ObjectKind::Dict ==> <Position as FromObject>::from_value(v) == Err::<
            Position,
            ConversionErrorValue,
        >(
            ConversionErrorValue::WrongKind {
                expected: ObjectKind::Dict,
                actual: v.kind(),
            },
        ),
        v.kind() != ObjectKind::Arr ==> <Mark as FromObject>::from_value(v) == Err::<
            MarkValue,
            ConversionErrorValue,
        >(
            ConversionErrorValue::WrongKind {
                expected: ObjectKind::Arr,
                actual: v.kind(),
            },
        ),
{
}

/// Law: a mark whose row and column the dynamic integer can carry
/// decodes back to itself from its own encoding.
pub proof fn lemma_round_trip_mark(m: MarkValue)
    ensures
        m.row <= i64::MAX && m.col <= i64::MAX ==> (<Mark as ToObject>::to_value(m) matches Ok(val)
            && <Mark as FromObject>::from_value(val) == Ok::<MarkValue, ConversionErrorValue>(m)),
{
}

/// Controls how the highlights of a virtual text associated to an
/// extmark are combined with the highlights of the text.
#[derive(Clone, Copy, Debug, PartialEq, Eq, Hash, Structural)]
#[non_exhaustive]
pub enum ExtmarkHlMode {
    /// Only show the virtual text's highlight (default).
    Replace,
    /// Combine with background text's highlight.
    Combine,
    /// Blend with background text's highlight.
    Blend,
}

/// The lowercase name under which an extmark highlight mode travels.
pub open spec fn extmark_hl_mode_name(m: ExtmarkHlMode) -> Seq<u8> {
    match m {
        ExtmarkHlMode::Replace => ("replace").spec_bytes(),
        ExtmarkHlMode::Combine => ("combine").spec_bytes(),
        ExtmarkHlMode::Blend => ("blend").spec_bytes(),
    }
}

impl ExtmarkHlMode {
    /// The mode's lowercase name as a boundary string.
    pub fn to_nvim_string(self) -> (r: NvimString)
        ensures
            r@ == extmark_hl_mode_name(self),
    {
        match self {
            ExtmarkHlMode::Replace => NvimString::from_str("replace"),
            ExtmarkHlMode::Combine => NvimString::from_str("combine"),
            ExtmarkHlMode::Blend => NvimString::from_str("blend"),
        }
    }

    /// The mode a lowercase name stands for, or nothing when the name
    /// is none of the three.
    pub fn from_nvim_string(s: &NvimString) -> (r: Option<ExtmarkHlMode>)
        ensures
            match r {
                Some(m) => s@ == extmark_hl_mode_name(m),
                None => forall|m: ExtmarkHlMode| s@ != #[trigger] extmark_hl_mode_name(m),
            },
    {
        if s.bytes_eq(&NvimString::from_str("replace")) {
            Some(ExtmarkHlMode::Replace)
        } else if s.bytes_eq(&NvimString::from_str("combine")) {
            Some(ExtmarkHlMode::Combine)
        } else if s.bytes_eq(&NvimString::from_str("blend")) {
            Some(ExtmarkHlMode::Blend)
        } else {
            None
        }
    }
}

/// Split modifier passed to the `split` key of a command's modifiers.
#[derive(Clone, Copy, Debug, PartialEq, Eq, Hash, Structural)]
#[non_exhaustive]
pub enum SplitModifier {
    AboveLeft,
    BelowRight,
    TopLeft,
    BotRight,
}

/// The lowercase name under which a split modifier travels.
pub open spec fn split_modifier_name(m: SplitModifier) -> Seq<u8> {
    match m {
        SplitModifier::AboveLeft => ("aboveleft").spec_bytes(),
        SplitModifier::BelowRight => ("belowright").spec_bytes(),
        SplitModifier::TopLeft => ("topleft").spec_bytes(),
        SplitModifier::BotRight => ("botright").spec_bytes(),
    }
}

impl SplitModifier {
    /// The modifier's lowercase name as a boundary string.
    pub fn to_nvim_string(self) -> (r: NvimString)
        ensures
            r@ == split_modifier_name(self),
    {
        match self {
            SplitModifier::AboveLeft => NvimString::from_str("aboveleft"),
            SplitModifier::BelowRight => NvimString::from_str("belowright"),
            SplitModifier::TopLeft => NvimString::from_str("topleft"),
            SplitModifier::BotRight => NvimString::from_str("botright"),
        }
    }

    /// The modifier a lowercase name stands for, or nothing when the
    /// name is none of the four.
    pub fn from_nvim_string(s: &NvimString) -> (r: Option<SplitModifier>)
        ensures
            match r {
                Some(m) => s@ == split_modifier_name(m),
                None => forall|m: SplitModifier| s@ != #[trigger] split_modifier_name(m),
            },
    {
        if s.bytes_eq(&NvimString::from_str("aboveleft")) {
            Some(SplitModifier::AboveLeft)
        } else if s.bytes_eq(&NvimString::from_str("belowright")) {
            Some(SplitModifier::BelowRight)
        } else if s.bytes_eq(&NvimString::from_str("topleft")) {
            Some(SplitModifier::TopLeft)
        } else if s.bytes_eq(&NvimString::from_str("botright")) {
            Some(SplitModifier::BotRight)
        } else {
            None
        }
    }
}

} // verus!
