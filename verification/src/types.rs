//! The host's tagged type model.
//!
//! Every host value carries a `u32` type tag. The low byte is the base tag
//! (null, bool, long, ...); the byte above `Z_TYPE_FLAGS_SHIFT` carries
//! host-specific extension flags such as "refcounted" and "collectable".
//! `get_base_type_by_raw` strips the flags with a mask derived from the single
//! shift-amount constant, so extended variants classify like their base tag.

use crate::errors::Error;
use vstd::prelude::*;

verus! {

/// Base tag of an unset slot.
pub const IS_UNDEF: u32 = 0;

/// Base tag of the null value.
pub const IS_NULL: u32 = 1;

/// Base tag of the boolean false value.
pub const IS_FALSE: u32 = 2;

/// Base tag of the boolean true value.
pub const IS_TRUE: u32 = 3;

/// Base tag of a 64-bit integer.
pub const IS_LONG: u32 = 4;

/// Base tag of a 64-bit floating point number.
pub const IS_DOUBLE: u32 = 5;

/// Base tag of a byte string.
pub const IS_STRING: u32 = 6;

/// Base tag of an ordered array.
pub const IS_ARRAY: u32 = 7;

/// Base tag of an object.
pub const IS_OBJECT: u32 = 8;

/// Base tag of an external resource handle.
pub const IS_RESOURCE: u32 = 9;

/// Base tag of a reference cell.
pub const IS_REFERENCE: u32 = 10;

/// Base tag of an indirect slot.
pub const IS_INDIRECT: u32 = 12;

/// Number of low bits that hold the base tag; the flag bits sit above it.
/// This shift amount is the single source of truth for the flag mask.
pub const Z_TYPE_FLAGS_SHIFT: u32 = 8;

/// Flag bit (above the shift) marking a reference-counted value.
pub const IS_TYPE_REFCOUNTED: u32 = 1;

/// Flag bit (above the shift) marking a garbage-collectable value.
pub const IS_TYPE_COLLECTABLE: u32 = 2;

/// Tag of a refcounted, collectable array: `IS_ARRAY` plus both flags.
pub const IS_ARRAY_EX: u32 = IS_ARRAY | ((IS_TYPE_REFCOUNTED | IS_TYPE_COLLECTABLE)
    << Z_TYPE_FLAGS_SHIFT);

/// Tag of a refcounted, collectable object: `IS_OBJECT` plus both flags.
pub const IS_OBJECT_EX: u32 = IS_OBJECT | ((IS_TYPE_REFCOUNTED | IS_TYPE_COLLECTABLE)
    << Z_TYPE_FLAGS_SHIFT);

/// Tag of a refcounted string: `IS_STRING` plus the refcounted flag.
pub const IS_STRING_EX: u32 = IS_STRING | (IS_TYPE_REFCOUNTED << Z_TYPE_FLAGS_SHIFT);

/// The base tag of a raw tag: the raw tag with all flag bits stripped.
pub open spec fn spec_base_type_of(t: u32) -> u32 {
    t & !((!0u32) << Z_TYPE_FLAGS_SHIFT)
}

/// Strips the extension flags from a raw tag, keeping only the base tag.
pub fn get_base_type_by_raw(t: u32) -> (r: u32)
    ensures
        r == spec_base_type_of(t),
{
    t & !((!0u32) << Z_TYPE_FLAGS_SHIFT)
}

/// Stripping flags from a bare base tag (below the flag bits) changes nothing,
/// and the result of stripping is always below the flag bits.
pub proof fn lemma_base_type_of_base(t: u32)
    ensures
        t < 256 ==> spec_base_type_of(t) == t,
        spec_base_type_of(t) < 256,
{
    assert(t < 256 ==> (t & !((!0u32) << 8u32)) == t) by (bit_vector);
    assert((t & !((!0u32) << 8u32)) < 256) by (bit_vector);
}

/// The extended array, object and string tags collapse to their base tags.
pub proof fn lemma_base_type_of_extended()
    ensures
        spec_base_type_of(IS_ARRAY_EX) == IS_ARRAY,
        spec_base_type_of(IS_OBJECT_EX) == IS_OBJECT,
        spec_base_type_of(IS_STRING_EX) == IS_STRING,
{
    assert((7u32 | ((1u32 | 2u32) << 8u32)) == 775u32) by (bit_vector);
    assert((8u32 | ((1u32 | 2u32) << 8u32)) == 776u32) by (bit_vector);
    assert((6u32 | (1u32 << 8u32)) == 262u32) by (bit_vector);
    assert((775u32 & !((!0u32) << 8u32)) == 7u32) by (bit_vector);
    assert((776u32 & !((!0u32) << 8u32)) == 8u32) by (bit_vector);
    assert((262u32 & !((!0u32) << 8u32)) == 6u32) by (bit_vector);
}

/// A host type tag: a base tag possibly extended with flag bits.
#[derive(PartialEq, Eq, Structural, Clone, Copy, Debug)]
pub struct Type {
    t: u32,
}

impl Type {
    /// The raw tag this `Type` wraps.
    pub closed spec fn spec_raw(self) -> u32 {
        self.t
    }

    /// Wraps a raw tag.
    pub fn from_raw(t: u32) -> (r: Self)
        ensures
            r.spec_raw() == t,
    {
        Self { t }
    }

    /// Unwraps the raw tag.
    pub fn into_raw(self) -> (r: u32)
        ensures
            r == self.spec_raw(),
    {
        self.t
    }

    /// The tag of an unset slot.
    pub fn undef() -> (r: Type)
        ensures
            r.spec_raw() == IS_UNDEF,
    {
        Self::from_raw(IS_UNDEF)
    }

    /// The tag of the null value.
    pub fn null() -> (r: Type)
        ensures
            r.spec_raw() == IS_NULL,
    {
        Self::from_raw(IS_NULL)
    }

    /// The tag of a boolean value: true and false have distinct base tags.
    pub fn bool(b: bool) -> (r: Type)
        ensures
            r.spec_raw() == (if b {
                IS_TRUE
            } else {
                IS_FALSE
            }),
    {
        Self::from_raw(if b {
            IS_TRUE
        } else {
            IS_FALSE
        })
    }

    /// The tag of a 64-bit integer.
    pub fn long() -> (r: Type)
        ensures
            r.spec_raw() == IS_LONG,
    {
        Self::from_raw(IS_LONG)
    }

    /// The tag of a 64-bit floating point number.
    pub fn double() -> (r: Type)
        ensures
            r.spec_raw() == IS_DOUBLE,
    {
        Self::from_raw(IS_DOUBLE)
    }

    /// The bare array tag.
    pub fn array() -> (r: Type)
        ensures
            r.spec_raw() == IS_ARRAY,
    {
        Self::from_raw(IS_ARRAY)
    }

    /// The extended array tag, with the refcounted and collectable flags set.
    pub fn array_ex() -> (r: Type)
        ensures
            r.spec_raw() == IS_ARRAY_EX,
    {
        Self::from_raw(IS_ARRAY_EX)
    }

    /// The bare object tag.
    pub fn object() -> (r: Type)
        ensures
            r.spec_raw() == IS_OBJECT,
    {
        Self::from_raw(IS_OBJECT)
    }

    /// The extended object tag, with the refcounted and collectable flags set.
    pub fn object_ex() -> (r: Type)
        ensures
            r.spec_raw() == IS_OBJECT_EX,
    {
        Self::from_raw(IS_OBJECT_EX)
    }

    /// Whether this is the undef tag. Flags are not stripped: undef is never
    /// extended.
    pub fn is_undef(self) -> (r: bool)
        ensures
            r == (self.spec_raw() == IS_UNDEF),
    {
        self.t == IS_UNDEF
    }

    /// Whether this is the null tag. Flags are not stripped: null is never
    /// extended.
    pub fn is_null(self) -> (r: bool)
        ensures
            r == (self.spec_raw() == IS_NULL),
    {
        self.t == IS_NULL
    }

    /// Whether the base tag is boolean (true or false).
    pub fn is_bool(self) -> (r: bool)
        ensures
            r == (spec_base_type_of(self.spec_raw()) == IS_TRUE || spec_base_type_of(
                self.spec_raw(),
            ) == IS_FALSE),
    {
        self.is_true() || self.is_false()
    }

    /// Whether the base tag is boolean true.
    pub fn is_true(self) -> (r: bool)
        ensures
            r == (spec_base_type_of(self.spec_raw()) == IS_TRUE),
    {
        get_base_type_by_raw(self.t) == IS_TRUE
    }

    /// Whether the base tag is boolean false.
    pub fn is_false(self) -> (r: bool)
        ensures
            r == (spec_base_type_of(self.spec_raw()) == IS_FALSE),
    {
        get_base_type_by_raw(self.t) == IS_FALSE
    }

    /// Whether the base tag is the 64-bit integer tag.
    pub fn is_long(self) -> (r: bool)
        ensures
            r == (spec_base_type_of(self.spec_raw()) == IS_LONG),
    {
        get_base_type_by_raw(self.t) == IS_LONG
    }

    /// Whether the base tag is the floating point tag.
    pub fn is_double(self) -> (r: bool)
        ensures
            r == (spec_base_type_of(self.spec_raw()) == IS_DOUBLE),
    {
        get_base_type_by_raw(self.t) == IS_DOUBLE
    }

    /// Whether the base tag is the string tag.
    pub fn is_string(self) -> (r: bool)
        ensures
            r == (spec_base_type_of(self.spec_raw()) == IS_STRING),
    {
        get_base_type_by_raw(self.t) == IS_STRING
    }

    /// Whether the base tag is the array tag.
    pub fn is_array(self) -> (r: bool)
        ensures
            r == (spec_base_type_of(self.spec_raw()) == IS_ARRAY),
    {
        get_base_type_by_raw(self.t) == IS_ARRAY
    }

    /// Whether the base tag is the object tag.
    pub fn is_object(self) -> (r: bool)
        ensures
            r == (spec_base_type_of(self.spec_raw()) == IS_OBJECT),
    {
        get_base_type_by_raw(self.t) == IS_OBJECT
    }

    /// Whether this is the indirect tag. Flags are not stripped.
    pub fn is_indirect(self) -> (r: bool)
        ensures
            r == (self.spec_raw() == IS_INDIRECT),
    {
        self.t == IS_INDIRECT
    }

    /// The tag with all extension flags stripped.
    pub fn get_base_type(self) -> (r: Type)
        ensures
            r.spec_raw() == spec_base_type_of(self.spec_raw()),
    {
        Self::from_raw(get_base_type_by_raw(self.t))
    }

    /// The printable name of this tag's base type.
    pub fn base_type_name(self) -> (r: String)
        ensures
            r@ == spec_base_type_name(spec_base_type_of(self.spec_raw())),
    {
        let b = get_base_type_by_raw(self.t);
        if b == IS_UNDEF {
            "undefined".to_owned()
        } else if b == IS_NULL {
            "null".to_owned()
        } else if b == IS_FALSE {
            "bool".to_owned()
        } else if b == IS_TRUE {
            "bool".to_owned()
        } else if b == IS_LONG {
            "int".to_owned()
        } else if b == IS_DOUBLE {
            "float".to_owned()
        } else if b == IS_STRING {
            "string".to_owned()
        } else if b == IS_ARRAY {
            "array".to_owned()
        } else if b == IS_OBJECT {
            "object".to_owned()
        } else if b == IS_RESOURCE {
            "resource".to_owned()
        } else if b == IS_REFERENCE {
            "reference".to_owned()
        } else {
            "unknown".to_owned()
        }
    }

    /// The printable name of this tag's base type, as a fallible lookup: the
    /// name is always known, so the result is always `Ok`.
    pub fn get_base_type_name(self) -> (r: Result<String, Error>)
        ensures
            r matches Ok(s) && s@ == spec_base_type_name(spec_base_type_of(self.spec_raw())),
    {
        Ok(self.base_type_name())
    }
}

/// The tag wrapping `n`: the specification-level form of `Type::from_raw`.
pub closed spec fn spec_type_from_raw(n: u32) -> Type {
    Type { t: n }
}

/// What `spec_type_from_raw` wraps is the raw tag it was given.
pub proof fn lemma_spec_type_from_raw(n: u32)
    ensures
        spec_type_from_raw(n).spec_raw() == n,
{
}

impl From<u32> for Type {
    fn from(n: u32) -> (r: Self) {
        Self::from_raw(n)
    }
}

impl vstd::std_specs::convert::FromSpecImpl<u32> for Type {
    open spec fn obeys_from_spec() -> bool {
        true
    }

    open spec fn from_spec(n: u32) -> Self {
        spec_type_from_raw(n)
    }
}

/// The printable name of a base tag.
pub open spec fn spec_base_type_name(t: u32) -> Seq<char> {
    if t == IS_UNDEF {
        "undefined"@
    } else if t == IS_NULL {
        "null"@
    } else if t == IS_FALSE || t == IS_TRUE {
        "bool"@
    } else if t == IS_LONG {
        "int"@
    } else if t == IS_DOUBLE {
        "float"@
    } else if t == IS_STRING {
        "string"@
    } else if t == IS_ARRAY {
        "array"@
    } else if t == IS_OBJECT {
        "object"@
    } else if t == IS_RESOURCE {
        "resource"@
    } else if t == IS_REFERENCE {
        "reference"@
    } else {
        "unknown"@
    }
}

} // verus!
