//! Property tags: a 16-bit property id over a 16-bit property type.

use crate::sys;
use vstd::prelude::*;

verus! {

pub const PROP_ID_MASK: u32 = 0xFFFF_0000;
pub const PROP_TYPE_MASK: u32 = 0xFFFF;

/// The property types that [`PropType::new`] keeps, with `MV_INSTANCE` cleared.
pub open spec fn known_prop_type(t: u32) -> bool {
    t == sys::PT_NULL || t == sys::PT_SHORT || t == sys::PT_LONG || t == sys::PT_PTR || t
        == sys::PT_FLOAT || t == sys::PT_DOUBLE || t == sys::PT_BOOLEAN || t == sys::PT_CURRENCY
        || t == sys::PT_APPTIME || t == sys::PT_SYSTIME || t == sys::PT_STRING8 || t
        == sys::PT_BINARY || t == sys::PT_UNICODE || t == sys::PT_CLSID || t == sys::PT_LONGLONG
        || t == sys::PT_MV_SHORT || t == sys::PT_MV_LONG || t == sys::PT_MV_FLOAT || t
        == sys::PT_MV_DOUBLE || t == sys::PT_MV_CURRENCY || t == sys::PT_MV_APPTIME || t
        == sys::PT_MV_SYSTIME || t == sys::PT_MV_BINARY || t == sys::PT_MV_STRING8 || t
        == sys::PT_MV_UNICODE || t == sys::PT_MV_CLSID || t == sys::PT_MV_LONGLONG || t
        == sys::PT_ERROR || t == sys::PT_OBJECT
}

fn is_known_prop_type(t: u32) -> (r: bool)
    ensures
        r == known_prop_type(t),
{
    t == sys::PT_NULL || t == sys::PT_SHORT || t == sys::PT_LONG || t == sys::PT_PTR || t
        == sys::PT_FLOAT || t == sys::PT_DOUBLE || t == sys::PT_BOOLEAN || t == sys::PT_CURRENCY
        || t == sys::PT_APPTIME || t == sys::PT_SYSTIME || t == sys::PT_STRING8 || t
        == sys::PT_BINARY || t == sys::PT_UNICODE || t == sys::PT_CLSID || t == sys::PT_LONGLONG
        || t == sys::PT_MV_SHORT || t == sys::PT_MV_LONG || t == sys::PT_MV_FLOAT || t
        == sys::PT_MV_DOUBLE || t == sys::PT_MV_CURRENCY || t == sys::PT_MV_APPTIME || t
        == sys::PT_MV_SYSTIME || t == sys::PT_MV_BINARY || t == sys::PT_MV_STRING8 || t
        == sys::PT_MV_UNICODE || t == sys::PT_MV_CLSID || t == sys::PT_MV_LONGLONG || t
        == sys::PT_ERROR || t == sys::PT_OBJECT
}

/// `t` with the `MV_INSTANCE` bit cleared.
pub open spec fn without_instance(t: u16) -> u32 {
    if (t as u32 / sys::MV_INSTANCE) % 2 == 1 {
        (t - sys::MV_INSTANCE) as u32
    } else {
        t as u32
    }
}

/// The type that [`PropType::new`] gives for `t`: `t` itself when it is a known type, with or
/// without `MV_INSTANCE`, and `PT_UNSPECIFIED` otherwise.
pub open spec fn checked_prop_type(t: u16) -> u16 {
    if known_prop_type(without_instance(t)) {
        t
    } else {
        sys::PT_UNSPECIFIED as u16
    }
}

/// A MAPI `PROP_TAG`.
#[derive(Clone, Copy)]
pub struct PropTag(pub u32);

/// A MAPI `PROP_TYPE`.
#[derive(Clone, Copy)]
pub struct PropType(u16);

impl View for PropType {
    type V = u16;

    closed spec fn view(&self) -> u16 {
        self.0
    }
}

impl PropTag {
    /// Combine a type and an id into a tag, as MAPI's `PROP_TAG` macro does.
    pub fn new(prop_type: PropType, prop_id: u16) -> (r: Self)
        ensures
            r.0 == prop_id as u32 * 0x1_0000 + prop_type@ as u32,
    {
        let id = prop_id as u32;
        let ty = prop_type.0 as u32;
        proof {
            assert((id << 16u32) | ty == id * 0x1_0000 + ty) by (bit_vector)
                requires
                    id < 0x1_0000,
                    ty < 0x1_0000,
            ;
        }
        PropTag((id << 16) | ty)
    }

    /// The id half of the tag, as MAPI's `PROP_ID` macro gives it.
    pub fn prop_id(&self) -> (r: u16)
        ensures
            r == self.0 / 0x1_0000,
    {
        let v = self.0;
        proof {
            assert((v & 0xFFFF_0000u32) >> 16u32 == v / 0x1_0000) by (bit_vector);
        }
        ((v & PROP_ID_MASK) >> 16) as u16
    }

    /// The type half of the tag, as MAPI's `PROP_TYPE` macro gives it, mapped through
    /// [`PropType::new`].
    pub fn prop_type(&self) -> (r: PropType)
        ensures
            r@ == checked_prop_type((self.0 % 0x1_0000) as u16),
    {
        let v = self.0;
        proof {
            assert(v & 0xFFFFu32 == v % 0x1_0000) by (bit_vector);
        }
        PropType::new((v & PROP_TYPE_MASK) as u16)
    }

    /// The tag with its type replaced, as MAPI's `CHANGE_PROP_TYPE` macro gives it.
    pub fn change_prop_type(self, prop_type: PropType) -> (r: Self)
        ensures
            r.0 == (self.0 / 0x1_0000) * 0x1_0000 + prop_type@ as u32,
    {
        Self::new(prop_type, self.prop_id())
    }
}

impl PropType {
    /// A property type, with unknown types mapped to `PT_UNSPECIFIED`.
    pub fn new(prop_type: u16) -> (r: Self)
        ensures
            r@ == checked_prop_type(prop_type),
    {
        let t = prop_type as u32;
        proof {
            assert(t & !0x2000u32 == if (t / 0x2000u32) % 2 == 1 {
                (t - 0x2000u32) as u32
            } else {
                t
            }) by (bit_vector)
                requires
                    t < 0x1_0000,
            ;
        }
        if is_known_prop_type(t & !sys::MV_INSTANCE) {
            PropType(prop_type)
        } else {
            PropType(sys::PT_UNSPECIFIED as u16)
        }
    }

    /// The type with the flags of `mask` (its low 16 bits) set.
    pub fn add_flags(self, mask: u32) -> (r: Self)
        ensures
            r@ == self@ | (mask & PROP_TYPE_MASK) as u16,
    {
        let mask = (mask & PROP_TYPE_MASK) as u16;
        PropType(self.0 | mask)
    }

    /// The type with the flags of `mask` (its low 16 bits) cleared.
    pub fn remove_flags(self, mask: u32) -> (r: Self)
        ensures
            r@ == self@ & !((mask & PROP_TYPE_MASK) as u16),
    {
        let mask = (mask & PROP_TYPE_MASK) as u16;
        PropType(self.0 & !mask)
    }

    /// The type as the `u32` that MAPI's headers use.
    pub fn value(&self) -> (r: u32)
        ensures
            r == self@ as u32,
    {
        self.0 as u32
    }
}

impl From<PropTag> for u32 {
    /// The tag's `u32` value.
    fn from(value: PropTag) -> (r: u32) {
        value.0
    }
}

impl vstd::std_specs::convert::FromSpecImpl<PropTag> for u32 {
    open spec fn obeys_from_spec() -> bool {
        true
    }

    open spec fn from_spec(v: PropTag) -> u32 {
        v.0
    }
}

impl From<PropType> for u32 {
    /// The type's `u32` value.
    fn from(value: PropType) -> (r: u32) {
        value.0 as u32
    }
}

impl vstd::std_specs::convert::FromSpecImpl<PropType> for u32 {
    open spec fn obeys_from_spec() -> bool {
        true
    }

    open spec fn from_spec(v: PropType) -> u32 {
        v@ as u32
    }
}

} // verus!
