//! Ownership of the property values of one table row.

use crate::sys;
use vstd::prelude::*;

verus! {

/// The members of an `SRow`: a count of property values and the address of their buffer,
/// which the row owns and which is freed with `MAPIFreeBuffer` when the row is released.
pub struct Row {
    count: usize,
    props: usize,
}

impl View for Row {
    /// The count of values and the address of their buffer, `0` when there is none.
    type V = (usize, usize);

    closed spec fn view(&self) -> (usize, usize) {
        (self.count, self.props)
    }
}

impl Row {
    /// Take the members of `row`, leaving it with no values and a null buffer.
    pub fn new(row: &mut sys::SRow) -> (r: Self)
        ensures
            r@ == (old(row).cValues as usize, old(row).lpProps),
            final(row).cValues == 0,
            final(row).lpProps == 0,
            final(row).ulAdrEntryPad == old(row).ulAdrEntryPad,
    {
        let count = row.cValues as usize;
        let props = row.lpProps;
        row.cValues = 0;
        row.lpProps = 0;
        Row { count, props }
    }

    /// Whether the row holds no values: a count of 0 or a null buffer.
    pub fn is_empty(&self) -> (r: bool)
        ensures
            r == (self@.0 == 0 || self@.1 == 0),
    {
        self.count == 0 || self.props == 0
    }

    /// The number of property values, 0 for a null buffer.
    pub fn len(&self) -> (r: usize)
        ensures
            r == (if self@.1 == 0 {
                0
            } else {
                self@.0
            }),
    {
        if self.props == 0 {
            0
        } else {
            self.count
        }
    }

    /// Give up the row: the address of its buffer, to be freed with `MAPIFreeBuffer`, unless it
    /// is null.
    pub fn release(self) -> (r: Option<usize>)
        ensures
            r == (if self@.1 == 0 {
                None
            } else {
                Some(self@.1)
            }),
    {
        if self.props == 0 {
            None
        } else {
            Some(self.props)
        }
    }
}

} // verus!
