//! Ownership of the rows that a table query returns.

use crate::row::Row;
use crate::sys;
use vstd::prelude::*;

verus! {

/// The rows returned by a table query, empty until filled in through [`RowSet::as_mut_ptr`].
pub struct RowSet {
    rows: Option<sys::SRowSet>,
}

impl View for RowSet {
    type V = Option<(nat, Seq<(usize, usize)>)>;

    closed spec fn view(&self) -> Option<(nat, Seq<(usize, usize)>)> {
        rows_view(self.rows)
    }
}

/// The count of rows and, for each stored row, its count of values and buffer address.
pub open spec fn rows_view(rows: Option<sys::SRowSet>) -> Option<(nat, Seq<(usize, usize)>)> {
    match rows {
        None => None,
        Some(s) => Some(
            (s.cRows as nat, s.aRow@.map_values(|row: sys::SRow| (row.cValues as usize, row.lpProps))),
        ),
    }
}

/// The number of rows that a set with `count` rows recorded and `stored` rows present hands
/// out.
pub open spec fn rows_available(count: nat, stored: nat) -> nat {
    if count <= stored {
        count
    } else {
        stored
    }
}

impl Default for RowSet {
    /// An empty set, with no row set filled in.
    fn default() -> (r: Self)
        ensures
            r@ is None,
    {
        RowSet { rows: None }
    }
}

impl RowSet {
    /// The slot for the row set, for an API that fills it in.
    pub fn as_mut_ptr(&mut self) -> (r: &mut Option<sys::SRowSet>)
        ensures
            rows_view(*r) == old(self)@,
            final(self)@ == rows_view(*final(r)),
    {
        &mut self.rows
    }

    /// Whether there is no row set or it holds 0 rows.
    pub fn is_empty(&self) -> (r: bool)
        ensures
            r == (self@ is None || self@->Some_0.0 == 0),
    {
        match &self.rows {
            None => true,
            Some(rows) => rows.cRows == 0,
        }
    }

    /// The count of rows in the row set, 0 when there is none.
    pub fn len(&self) -> (r: usize)
        ensures
            r == (match self@ {
                None => 0,
                Some(v) => v.0,
            }),
    {
        match &self.rows {
            None => 0,
            Some(rows) => rows.cRows as usize,
        }
    }

    /// Hand the rows out, each taking ownership of its property values. Only the rows that
    /// are both counted and present are handed out.
    pub fn into_rows(self) -> (r: Vec<Row>)
        ensures
            self@ is None ==> r@.len() == 0,
            self@ is Some ==> r@.len() == rows_available(self@->Some_0.0, self@->Some_0.1.len()),
            self@ is Some ==> forall|i: int|
                0 <= i < r@.len() ==> (#[trigger] r@[i])@ == self@->Some_0.1[i],
    {
        let mut out: Vec<Row> = Vec::new();
        match self.rows {
            None => out,
            Some(set) => {
                let stored = set.aRow.len();
                let n: usize = if (set.cRows as usize) <= stored {
                    set.cRows as usize
                } else {
                    stored
                };
                let mut set = set;
                let ghost rows0 = set.aRow@;
                let mut i: usize = 0;
                while i < n
                    invariant
                        n <= set.aRow@.len(),
                        set.aRow@.len() == rows0.len(),
                        i <= n,
                        out@.len() == i,
                        forall|j: int| i <= j < rows0.len() ==> set.aRow@[j] == rows0[j],
                        forall|j: int|
                            0 <= j < i ==> (#[trigger] out@[j])@ == (
                                rows0[j].cValues as usize,
                                rows0[j].lpProps,
                            ),
                    decreases n - i,
                {
                    let row = Row::new(&mut set.aRow[i]);
                    out.push(row);
                    i = i + 1;
                }
                out
            },
        }
    }
}

} // verus!
