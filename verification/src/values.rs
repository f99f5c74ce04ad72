//! The tagged value model shared between the native and host worlds.
//!
//! A [`Value`] is a closed tagged union mirroring the host's dynamic value
//! representation. Conversions to native typed values are fallible and report
//! the source tag's name on mismatch; conversions from native values are the
//! plain constructors. An array is an ordered list of key/value pairs, so
//! construction preserves insertion order. A floating point payload is carried
//! as its 64 raw bits: the bridge moves it across the boundary unchanged and
//! never computes with it.

use crate::errors::{Error, TypeError};
use crate::types::{
    spec_base_type_name, spec_base_type_of, Type, IS_ARRAY_EX, IS_DOUBLE, IS_FALSE, IS_LONG,
    IS_NULL, IS_OBJECT_EX, IS_STRING_EX, IS_TRUE,
};
use vstd::prelude::*;
use vstd::string::StringExecFns;

verus! {

/// A key of an ordered host array: an integer index or a string key.
#[derive(Debug)]
pub enum ArrayKey {
    Long(i64),
    Str(String),
}

/// A host value: a closed tagged union.
#[derive(Debug)]
pub enum Value {
    Null,
    Bool(bool),
    Long(i64),
    /// A 64-bit floating point number, carried as its raw bit pattern.
    Double(u64),
    Str(String),
    Bytes(Vec<u8>),
    /// An ordered map; insertion order is the order of the pairs.
    Array(Vec<(ArrayKey, Value)>),
    /// A handle to a host object allocation.
    Object(u64),
}

impl Value {
    /// The raw type tag of this value. Strings, arrays and objects carry the
    /// extended, reference-counted tags.
    pub open spec fn spec_type_raw(self) -> u32 {
        match self {
            Value::Null => IS_NULL,
            Value::Bool(b) => if b {
                IS_TRUE
            } else {
                IS_FALSE
            },
            Value::Long(_) => IS_LONG,
            Value::Double(_) => IS_DOUBLE,
            Value::Str(_) => IS_STRING_EX,
            Value::Bytes(_) => IS_STRING_EX,
            Value::Array(_) => IS_ARRAY_EX,
            Value::Object(_) => IS_OBJECT_EX,
        }
    }

    /// The boolean payload, if this value carries one.
    pub open spec fn spec_to_bool(self) -> Option<bool> {
        match self {
            Value::Bool(b) => Some(b),
            _ => None,
        }
    }

    /// The integer payload, if this value carries one.
    pub open spec fn spec_to_long(self) -> Option<i64> {
        match self {
            Value::Long(n) => Some(n),
            _ => None,
        }
    }

    /// The floating point payload's bits, if this value carries one.
    pub open spec fn spec_to_double_bits(self) -> Option<u64> {
        match self {
            Value::Double(bits) => Some(bits),
            _ => None,
        }
    }

    /// The string payload, if this value carries one.
    pub open spec fn spec_to_str(self) -> Option<String> {
        match self {
            Value::Str(s) => Some(s),
            _ => None,
        }
    }

    /// The byte-string payload, if this value carries one.
    pub open spec fn spec_to_bytes(self) -> Option<Vec<u8>> {
        match self {
            Value::Bytes(b) => Some(b),
            _ => None,
        }
    }

    /// The ordered pairs of an array value, if this value is an array.
    pub open spec fn spec_to_array_pairs(self) -> Option<Vec<(ArrayKey, Value)>> {
        match self {
            Value::Array(ps) => Some(ps),
            _ => None,
        }
    }

    /// The type tag of this value.
    pub fn type_of(&self) -> (r: Type)
        ensures
            r.spec_raw() == self.spec_type_raw(),
    {
        match self {
            Value::Null => Type::null(),
            Value::Bool(b) => Type::bool(*b),
            Value::Long(_) => Type::long(),
            Value::Double(_) => Type::double(),
            Value::Str(_) => Type::from_raw(IS_STRING_EX),
            Value::Bytes(_) => Type::from_raw(IS_STRING_EX),
            Value::Array(_) => Type::array_ex(),
            Value::Object(_) => Type::object_ex(),
        }
    }

    /// The boolean payload, or a type error naming the expected type and the
    /// source tag's base name.
    pub fn to_bool(self) -> (r: Result<bool, Error>)
        ensures
            self.spec_to_bool() matches Some(b) ==> r == Ok::<bool, Error>(b),
            self.spec_to_bool() is None ==> (r matches Err(Error::Type(t)) && t.message@
                == spec_mismatch_message("bool"@, self.spec_type_raw())),
    {
        match self {
            Value::Bool(b) => Ok(b),
            v => Err(mismatch_error("bool", &v)),
        }
    }

    /// The integer payload, or a type error naming the expected type and the
    /// source tag's base name.
    pub fn to_long(self) -> (r: Result<i64, Error>)
        ensures
            self.spec_to_long() matches Some(n) ==> r == Ok::<i64, Error>(n),
            self.spec_to_long() is None ==> (r matches Err(Error::Type(t)) && t.message@
                == spec_mismatch_message("int"@, self.spec_type_raw())),
    {
        match self {
            Value::Long(n) => Ok(n),
            v => Err(mismatch_error("int", &v)),
        }
    }

    /// The floating point payload's raw bits, or a type error naming the
    /// expected type and the source tag's base name.
    pub fn to_double_bits(self) -> (r: Result<u64, Error>)
        ensures
            self.spec_to_double_bits() matches Some(bits) ==> r == Ok::<u64, Error>(bits),
            self.spec_to_double_bits() is None ==> (r matches Err(Error::Type(t)) && t.message@
                == spec_mismatch_message("float"@, self.spec_type_raw())),
    {
        match self {
            Value::Double(bits) => Ok(bits),
            v => Err(mismatch_error("float", &v)),
        }
    }

    /// The string payload, or a type error naming the expected type and the
    /// source tag's base name.
    pub fn to_str(self) -> (r: Result<String, Error>)
        ensures
            self.spec_to_str() matches Some(s) ==> r == Ok::<String, Error>(s),
            self.spec_to_str() is None ==> (r matches Err(Error::Type(t)) && t.message@
                == spec_mismatch_message("string"@, self.spec_type_raw())),
    {
        match self {
            Value::Str(s) => Ok(s),
            v => Err(mismatch_error("string", &v)),
        }
    }

    /// The byte-string payload, or a type error naming the expected type and
    /// the source tag's base name.
    pub fn to_bytes(self) -> (r: Result<Vec<u8>, Error>)
        ensures
            self.spec_to_bytes() matches Some(b) ==> r == Ok::<Vec<u8>, Error>(b),
            self.spec_to_bytes() is None ==> (r matches Err(Error::Type(t)) && t.message@
                == spec_mismatch_message("bytes"@, self.spec_type_raw())),
    {
        match self {
            Value::Bytes(b) => Ok(b),
            v => Err(mismatch_error("bytes", &v)),
        }
    }

    /// The ordered pairs of an array value, or a type error naming the
    /// expected type and the source tag's base name.
    pub fn to_array_pairs(self) -> (r: Result<Vec<(ArrayKey, Value)>, Error>)
        ensures
            self.spec_to_array_pairs() matches Some(ps) ==> r == Ok::<
                Vec<(ArrayKey, Value)>,
                Error,
            >(ps),
            self.spec_to_array_pairs() is None ==> (r matches Err(Error::Type(t)) && t.message@
                == spec_mismatch_message("array"@, self.spec_type_raw())),
    {
        match self {
            Value::Array(ps) => Ok(ps),
            v => Err(mismatch_error("array", &v)),
        }
    }
}

/// The message of the type error raised when a conversion meets the wrong tag:
/// the expected native type and the source tag's base name.
pub open spec fn spec_mismatch_message(expected: Seq<char>, found_raw: u32) -> Seq<char> {
    "expect "@ + expected + ", found "@ + spec_base_type_name(spec_base_type_of(found_raw))
}

fn mismatch_error(expected: &str, found: &Value) -> (r: Error)
    ensures
        r matches Error::Type(t) && t.message@ == spec_mismatch_message(
            expected@,
            found.spec_type_raw(),
        ),
{
    let mut m = "expect ".to_owned();
    m.append(expected);
    m.append(", found ");
    let name = found.type_of().base_type_name();
    m.append(name.as_str());
    Error::Type(TypeError::new(m))
}

/// Converts a native boolean into a host value.
pub fn from_bool(b: bool) -> (v: Value)
    ensures
        v == Value::Bool(b),
{
    Value::Bool(b)
}

/// Converts a native 64-bit integer into a host value.
pub fn from_long(n: i64) -> (v: Value)
    ensures
        v == Value::Long(n),
{
    Value::Long(n)
}

/// Converts the raw bits of a native 64-bit float into a host value.
pub fn from_double_bits(bits: u64) -> (v: Value)
    ensures
        v == Value::Double(bits),
{
    Value::Double(bits)
}

/// Converts a native string into a host value.
pub fn from_string(s: String) -> (v: Value)
    ensures
        v == Value::Str(s),
{
    Value::Str(s)
}

/// Converts a native byte string into a host value.
pub fn from_bytes(b: Vec<u8>) -> (v: Value)
    ensures
        v == Value::Bytes(b),
{
    Value::Bytes(b)
}

/// Builds an ordered host array from key/value pairs, preserving their order.
pub fn from_array_pairs(pairs: Vec<(ArrayKey, Value)>) -> (v: Value)
    ensures
        v == Value::Array(pairs),
{
    Value::Array(pairs)
}

/// A boolean taken out of a host value goes back in unchanged: the conversion
/// pair is a round trip.
pub proof fn lemma_round_trip_bool(v: Value, b: bool)
    requires
        v.spec_to_bool() == Some(b),
    ensures
        Value::Bool(b) == v,
{
}

/// An integer taken out of a host value goes back in unchanged.
pub proof fn lemma_round_trip_long(v: Value, n: i64)
    requires
        v.spec_to_long() == Some(n),
    ensures
        Value::Long(n) == v,
{
}

/// A float's bits taken out of a host value go back in unchanged.
pub proof fn lemma_round_trip_double_bits(v: Value, bits: u64)
    requires
        v.spec_to_double_bits() == Some(bits),
    ensures
        Value::Double(bits) == v,
{
}

/// A string taken out of a host value goes back in unchanged.
pub proof fn lemma_round_trip_string(v: Value, s: String)
    requires
        v.spec_to_str() == Some(s),
    ensures
        Value::Str(s) == v,
{
}

/// A byte string taken out of a host value goes back in unchanged.
pub proof fn lemma_round_trip_bytes(v: Value, b: Vec<u8>)
    requires
        v.spec_to_bytes() == Some(b),
    ensures
        Value::Bytes(b) == v,
{
}

/// An array's pairs taken out of a host value go back in unchanged, in the
/// same order: the round trip preserves key order.
pub proof fn lemma_round_trip_array(v: Value, ps: Vec<(ArrayKey, Value)>)
    requires
        v.spec_to_array_pairs() == Some(ps),
    ensures
        Value::Array(ps) == v,
{
}

} // verus!
