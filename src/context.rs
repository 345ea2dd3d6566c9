use vstd::prelude::*;

use crate::decimal::{int_text, push_signed, push_unsigned};

verus! {

/// A value that can be attached to an error as context.
///
/// Floating-point values are carried as the decimal text that their `Display` form gives;
/// they are rendered as that text.
#[derive(Debug)]
pub enum ThrowContextValues {
    /// A boolean.
    Bool(bool),
    /// A signed 8-bit integer.
    Int8(i8),
    /// An unsigned 8-bit integer.
    Uint8(u8),
    /// A signed 16-bit integer.
    Int16(i16),
    /// An unsigned 16-bit integer.
    Uint16(u16),
    /// A signed 32-bit integer.
    Int32(i32),
    /// An unsigned 32-bit integer.
    Uint32(u32),
    /// A signed 64-bit integer.
    Int64(i64),
    /// An unsigned 64-bit integer.
    Uint64(u64),
    /// A 32-bit float, as its decimal text.
    Float32(String),
    /// A 64-bit float, as its decimal text.
    Float64(String),
    /// An owned string.
    String(String),
    /// A string with static lifetime, kept without copying.
    StaticStr(&'static str),
}

/// The text form of a context value: `true` or `false`, a decimal numeral, or the text itself.
pub open spec fn value_text(v: ThrowContextValues) -> Seq<char> {
    match v {
        ThrowContextValues::Bool(b) => if b {
            "true"@
        } else {
            "false"@
        },
        ThrowContextValues::Int8(x) => int_text(x as int),
        ThrowContextValues::Uint8(x) => int_text(x as int),
        ThrowContextValues::Int16(x) => int_text(x as int),
        ThrowContextValues::Uint16(x) => int_text(x as int),
        ThrowContextValues::Int32(x) => int_text(x as int),
        ThrowContextValues::Uint32(x) => int_text(x as int),
        ThrowContextValues::Int64(x) => int_text(x as int),
        ThrowContextValues::Uint64(x) => int_text(x as int),
        ThrowContextValues::Float32(s) => s@,
        ThrowContextValues::Float64(s) => s@,
        ThrowContextValues::String(s) => s@,
        ThrowContextValues::StaticStr(s) => s@,
    }
}

impl ThrowContextValues {
    /// Appends the text form of this value to `s`.
    pub fn write_to(&self, s: &mut String)
        ensures
            final(s)@ == old(s)@ + value_text(*self),
    {
        match self {
            ThrowContextValues::Bool(b) => {
                if *b {
                    s.append("true");
                } else {
                    s.append("false");
                }
            },
            ThrowContextValues::Int8(x) => push_signed(s, *x as i64),
            ThrowContextValues::Uint8(x) => push_unsigned(s, *x as u64),
            ThrowContextValues::Int16(x) => push_signed(s, *x as i64),
            ThrowContextValues::Uint16(x) => push_unsigned(s, *x as u64),
            ThrowContextValues::Int32(x) => push_signed(s, *x as i64),
            ThrowContextValues::Uint32(x) => push_unsigned(s, *x as u64),
            ThrowContextValues::Int64(x) => push_signed(s, *x),
            ThrowContextValues::Uint64(x) => push_unsigned(s, *x),
            ThrowContextValues::Float32(t) => s.append(t.as_str()),
            ThrowContextValues::Float64(t) => s.append(t.as_str()),
            ThrowContextValues::String(t) => s.append(t.as_str()),
            ThrowContextValues::StaticStr(t) => s.append(t),
        }
    }

    /// The text form of this value.
    pub fn to_string(&self) -> (r: String)
        ensures
            r@ == value_text(*self),
    {
        let mut s = String::new();
        self.write_to(&mut s);
        assert(s@ =~= value_text(*self));
        s
    }

    /// A copy of this value.
    pub fn duplicate(&self) -> (r: ThrowContextValues)
        ensures
            r == *self,
    {
        match self {
            ThrowContextValues::Bool(x) => ThrowContextValues::Bool(*x),
            ThrowContextValues::Int8(x) => ThrowContextValues::Int8(*x),
            ThrowContextValues::Uint8(x) => ThrowContextValues::Uint8(*x),
            ThrowContextValues::Int16(x) => ThrowContextValues::Int16(*x),
            ThrowContextValues::Uint16(x) => ThrowContextValues::Uint16(*x),
            ThrowContextValues::Int32(x) => ThrowContextValues::Int32(*x),
            ThrowContextValues::Uint32(x) => ThrowContextValues::Uint32(*x),
            ThrowContextValues::Int64(x) => ThrowContextValues::Int64(*x),
            ThrowContextValues::Uint64(x) => ThrowContextValues::Uint64(*x),
            ThrowContextValues::Float32(t) => ThrowContextValues::Float32(t.clone()),
            ThrowContextValues::Float64(t) => ThrowContextValues::Float64(t.clone()),
            ThrowContextValues::String(t) => ThrowContextValues::String(t.clone()),
            ThrowContextValues::StaticStr(t) => ThrowContextValues::StaticStr(*t),
        }
    }
}

impl From<bool> for ThrowContextValues {
    fn from(v: bool) -> ThrowContextValues {
        ThrowContextValues::Bool(v)
    }
}

impl vstd::std_specs::convert::FromSpecImpl<bool> for ThrowContextValues {
    open spec fn obeys_from_spec() -> bool {
        true
    }

    open spec fn from_spec(v: bool) -> ThrowContextValues {
        ThrowContextValues::Bool(v)
    }
}

impl From<i8> for ThrowContextValues {
    fn from(v: i8) -> ThrowContextValues {
        ThrowContextValues::Int8(v)
    }
}

impl vstd::std_specs::convert::FromSpecImpl<i8> for ThrowContextValues {
    open spec fn obeys_from_spec() -> bool {
        true
    }

    open spec fn from_spec(v: i8) -> ThrowContextValues {
        ThrowContextValues::Int8(v)
    }
}

impl From<u8> for ThrowContextValues {
    fn from(v: u8) -> ThrowContextValues {
        ThrowContextValues::Uint8(v)
    }
}

impl vstd::std_specs::convert::FromSpecImpl<u8> for ThrowContextValues {
    open spec fn obeys_from_spec() -> bool {
        true
    }

    open spec fn from_spec(v: u8) -> ThrowContextValues {
        ThrowContextValues::Uint8(v)
    }
}

impl From<i16> for ThrowContextValues {
    fn from(v: i16) -> ThrowContextValues {
        ThrowContextValues::Int16(v)
    }
}

impl vstd::std_specs::convert::FromSpecImpl<i16> for ThrowContextValues {
    open spec fn obeys_from_spec() -> bool {
        true
    }

    open spec fn from_spec(v: i16) -> ThrowContextValues {
        ThrowContextValues::Int16(v)
    }
}

impl From<u16> for ThrowContextValues {
    fn from(v: u16) -> ThrowContextValues {
        ThrowContextValues::Uint16(v)
    }
}

impl vstd::std_specs::convert::FromSpecImpl<u16> for ThrowContextValues {
    open spec fn obeys_from_spec() -> bool {
        true
    }

    open spec fn from_spec(v: u16) -> ThrowContextValues {
        ThrowContextValues::Uint16(v)
    }
}

impl From<i32> for ThrowContextValues {
    fn from(v: i32) -> ThrowContextValues {
        ThrowContextValues::Int32(v)
    }
}

impl vstd::std_specs::convert::FromSpecImpl<i32> for ThrowContextValues {
    open spec fn obeys_from_spec() -> bool {
        true
    }

    open spec fn from_spec(v: i32) -> ThrowContextValues {
        ThrowContextValues::Int32(v)
    }
}

impl From<u32> for ThrowContextValues {
    fn from(v: u32) -> ThrowContextValues {
        ThrowContextValues::Uint32(v)
    }
}

impl vstd::std_specs::convert::FromSpecImpl<u32> for ThrowContextValues {
    open spec fn obeys_from_spec() -> bool {
        true
    }

    open spec fn from_spec(v: u32) -> ThrowContextValues {
        ThrowContextValues::Uint32(v)
    }
}

impl From<i64> for ThrowContextValues {
    fn from(v: i64) -> ThrowContextValues {
        ThrowContextValues::Int64(v)
    }
}

impl vstd::std_specs::convert::FromSpecImpl<i64> for ThrowContextValues {
    open spec fn obeys_from_spec() -> bool {
        true
    }

    open spec fn from_spec(v: i64) -> ThrowContextValues {
        ThrowContextValues::Int64(v)
    }
}

impl From<u64> for ThrowContextValues {
    fn from(v: u64) -> ThrowContextValues {
        ThrowContextValues::Uint64(v)
    }
}

impl vstd::std_specs::convert::FromSpecImpl<u64> for ThrowContextValues {
    open spec fn obeys_from_spec() -> bool {
        true
    }

    open spec fn from_spec(v: u64) -> ThrowContextValues {
        ThrowContextValues::Uint64(v)
    }
}

impl From<String> for ThrowContextValues {
    fn from(v: String) -> ThrowContextValues {
        ThrowContextValues::String(v)
    }
}

impl vstd::std_specs::convert::FromSpecImpl<String> for ThrowContextValues {
    open spec fn obeys_from_spec() -> bool {
        true
    }

    open spec fn from_spec(v: String) -> ThrowContextValues {
        ThrowContextValues::String(v)
    }
}

impl From<&'static str> for ThrowContextValues {
    fn from(v: &'static str) -> ThrowContextValues {
        ThrowContextValues::StaticStr(v)
    }
}

impl vstd::std_specs::convert::FromSpecImpl<&'static str> for ThrowContextValues {
    open spec fn obeys_from_spec() -> bool {
        true
    }

    open spec fn from_spec(v: &'static str) -> ThrowContextValues {
        ThrowContextValues::StaticStr(v)
    }
}

/// The mathematical value of a [`KvPair`].
pub ghost struct KvView {
    pub key: Seq<char>,
    pub value: ThrowContextValues,
}

/// A context entry: a static key and a value.
#[derive(Debug)]
pub struct KvPair {
    key: &'static str,
    value: ThrowContextValues,
}

impl View for KvPair {
    type V = KvView;

    closed spec fn view(&self) -> KvView {
        KvView { key: self.key@, value: self.value }
    }
}

impl KvPair {
    /// A pair of `key` and `value`.
    pub fn new(key: &'static str, value: ThrowContextValues) -> (r: KvPair)
        ensures
            r@ == (KvView { key: key@, value }),
    {
        KvPair { key, value }
    }

    /// The key of this pair.
    pub fn key(&self) -> (r: &'static str)
        ensures
            r@ == self@.key,
    {
        self.key
    }

    /// The value of this pair.
    pub fn value(&self) -> (r: &ThrowContextValues)
        ensures
            *r == self@.value,
    {
        &self.value
    }

    /// A copy of this pair.
    pub fn duplicate(&self) -> (r: KvPair)
        ensures
            r@ == self@,
    {
        KvPair { key: self.key, value: self.value.duplicate() }
    }
}

} // verus!
