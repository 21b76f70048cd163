//! Which variant of a property value a tag selects.
//!
//! Decoding an `SPropValue` reads the member of its value union that the tag's type names. The
//! dispatch on the type is made here; the read itself is left to the caller, and each variant
//! that holds a pointer is checked for null there.

use crate::prop_tag::{checked_prop_type, without_instance, PropTag};
use crate::sys;
use vstd::prelude::*;

verus! {

/// The variant of a decoded property value.
#[derive(Debug, Clone, Copy, PartialEq, Eq, Structural)]
pub enum PropValueKind {
    /// `PT_NULL`
    Null,
    /// `PT_SHORT`
    Short,
    /// `PT_LONG`
    Long,
    /// `PT_PTR`
    Pointer,
    /// `PT_FLOAT`
    Float,
    /// `PT_DOUBLE`
    Double,
    /// `PT_BOOLEAN`
    Boolean,
    /// `PT_CURRENCY`
    Currency,
    /// `PT_APPTIME`
    AppTime,
    /// `PT_SYSTIME`
    FileTime,
    /// `PT_STRING8`
    AnsiString,
    /// `PT_BINARY`
    Binary,
    /// `PT_UNICODE`
    Unicode,
    /// `PT_CLSID`
    Guid,
    /// `PT_LONGLONG`
    LargeInteger,
    /// `PT_MV_SHORT`
    ShortArray,
    /// `PT_MV_LONG`
    LongArray,
    /// `PT_MV_FLOAT`
    FloatArray,
    /// `PT_MV_DOUBLE`
    DoubleArray,
    /// `PT_MV_CURRENCY`
    CurrencyArray,
    /// `PT_MV_APPTIME`
    AppTimeArray,
    /// `PT_MV_SYSTIME`
    FileTimeArray,
    /// `PT_MV_BINARY`
    BinaryArray,
    /// `PT_MV_STRING8`
    AnsiStringArray,
    /// `PT_MV_UNICODE`
    UnicodeArray,
    /// `PT_MV_CLSID`
    GuidArray,
    /// `PT_MV_LONGLONG`
    LargeIntegerArray,
    /// `PT_ERROR`
    Error,
    /// `PT_OBJECT`
    Object,
    /// Any other type, decoded as the error `E_INVALIDARG`.
    Invalid,
}

/// The variant for the property type `t`, once `MV_INSTANCE` has been cleared.
pub open spec fn kind_of(t: u32) -> PropValueKind {
    if t == sys::PT_NULL {
        PropValueKind::Null
    } else if t == sys::PT_SHORT {
        PropValueKind::Short
    } else if t == sys::PT_LONG {
        PropValueKind::Long
    } else if t == sys::PT_PTR {
        PropValueKind::Pointer
    } else if t == sys::PT_FLOAT {
        PropValueKind::Float
    } else if t == sys::PT_DOUBLE {
        PropValueKind::Double
    } else if t == sys::PT_BOOLEAN {
        PropValueKind::Boolean
    } else if t == sys::PT_CURRENCY {
        PropValueKind::Currency
    } else if t == sys::PT_APPTIME {
        PropValueKind::AppTime
    } else if t == sys::PT_SYSTIME {
        PropValueKind::FileTime
    } else if t == sys::PT_STRING8 {
        PropValueKind::AnsiString
    } else if t == sys::PT_BINARY {
        PropValueKind::Binary
    } else if t == sys::PT_UNICODE {
        PropValueKind::Unicode
    } else if t == sys::PT_CLSID {
        PropValueKind::Guid
    } else if t == sys::PT_LONGLONG {
        PropValueKind::LargeInteger
    } else if t == sys::PT_MV_SHORT {
        PropValueKind::ShortArray
    } else if t == sys::PT_MV_LONG {
        PropValueKind::LongArray
    } else if t == sys::PT_MV_FLOAT {
        PropValueKind::FloatArray
    } else if t == sys::PT_MV_DOUBLE {
        PropValueKind::DoubleArray
    } else if t == sys::PT_MV_CURRENCY {
        PropValueKind::CurrencyArray
    } else if t == sys::PT_MV_APPTIME {
        PropValueKind::AppTimeArray
    } else if t == sys::PT_MV_SYSTIME {
        PropValueKind::FileTimeArray
    } else if t == sys::PT_MV_BINARY {
        PropValueKind::BinaryArray
    } else if t == sys::PT_MV_STRING8 {
        PropValueKind::AnsiStringArray
    } else if t == sys::PT_MV_UNICODE {
        PropValueKind::UnicodeArray
    } else if t == sys::PT_MV_CLSID {
        PropValueKind::GuidArray
    } else if t == sys::PT_MV_LONGLONG {
        PropValueKind::LargeIntegerArray
    } else if t == sys::PT_ERROR {
        PropValueKind::Error
    } else if t == sys::PT_OBJECT {
        PropValueKind::Object
    } else {
        PropValueKind::Invalid
    }
}

fn kind_of_type(t: u32) -> (r: PropValueKind)
    ensures
        r == kind_of(t),
{
    if t == sys::PT_NULL {
        PropValueKind::Null
    } else if t == sys::PT_SHORT {
        PropValueKind::Short
    } else if t == sys::PT_LONG {
        PropValueKind::Long
    } else if t == sys::PT_PTR {
        PropValueKind::Pointer
    } else if t == sys::PT_FLOAT {
        PropValueKind::Float
    } else if t == sys::PT_DOUBLE {
        PropValueKind::Double
    } else if t == sys::PT_BOOLEAN {
        PropValueKind::Boolean
    } else if t == sys::PT_CURRENCY {
        PropValueKind::Currency
    } else if t == sys::PT_APPTIME {
        PropValueKind::AppTime
    } else if t == sys::PT_SYSTIME {
        PropValueKind::FileTime
    } else if t == sys::PT_STRING8 {
        PropValueKind::AnsiString
    } else if t == sys::PT_BINARY {
        PropValueKind::Binary
    } else if t == sys::PT_UNICODE {
        PropValueKind::Unicode
    } else if t == sys::PT_CLSID {
        PropValueKind::Guid
    } else if t == sys::PT_LONGLONG {
        PropValueKind::LargeInteger
    } else if t == sys::PT_MV_SHORT {
        PropValueKind::ShortArray
    } else if t == sys::PT_MV_LONG {
        PropValueKind::LongArray
    } else if t == sys::PT_MV_FLOAT {
        PropValueKind::FloatArray
    } else if t == sys::PT_MV_DOUBLE {
        PropValueKind::DoubleArray
    } else if t == sys::PT_MV_CURRENCY {
        PropValueKind::CurrencyArray
    } else if t == sys::PT_MV_APPTIME {
        PropValueKind::AppTimeArray
    } else if t == sys::PT_MV_SYSTIME {
        PropValueKind::FileTimeArray
    } else if t == sys::PT_MV_BINARY {
        PropValueKind::BinaryArray
    } else if t == sys::PT_MV_STRING8 {
        PropValueKind::AnsiStringArray
    } else if t == sys::PT_MV_UNICODE {
        PropValueKind::UnicodeArray
    } else if t == sys::PT_MV_CLSID {
        PropValueKind::GuidArray
    } else if t == sys::PT_MV_LONGLONG {
        PropValueKind::LargeIntegerArray
    } else if t == sys::PT_ERROR {
        PropValueKind::Error
    } else if t == sys::PT_OBJECT {
        PropValueKind::Object
    } else {
        PropValueKind::Invalid
    }
}

/// The type on which decoding dispatches: the tag's type as [`PropTag::prop_type`] gives it,
/// without `MV_INSTANCE`.
pub open spec fn dispatch_type(tag: PropTag) -> u32 {
    without_instance(checked_prop_type((tag.0 % 0x1_0000) as u16))
}

/// The variant that decoding a value with this tag produces.
pub fn value_kind(tag: PropTag) -> (r: PropValueKind)
    ensures
        r == kind_of(dispatch_type(tag)),
{
    let prop_type = tag.prop_type().remove_flags(sys::MV_INSTANCE);
    let t = u32::from(prop_type);
    proof {
        let x = checked_prop_type((tag.0 % 0x1_0000) as u16);
        assert(x & !((0x2000u32 & 0xFFFFu32) as u16) == if (x / 0x2000u16) % 2 == 1 {
            (x - 0x2000u16) as u16
        } else {
            x
        }) by (bit_vector);
    }
    kind_of_type(t)
}

} // verus!
