//! Sizes of MAPI's variable-length structures, after the `CbNewXXX` and `CbXXX` macros of
//! `MAPIDefs.h`.

use crate::sys;
use vstd::prelude::*;

verus! {

/// The size of a structure declared with `MAPI_DIM` placeholder elements once it holds `count`
/// elements: the placeholders are taken off and the real elements added.
pub open spec fn sized_container(container: nat, element: nat, count: nat) -> int {
    container - element * sys::MAPI_DIM + element * count
}

/// The size of a container of `container_size` bytes, declared with `MAPI_DIM` placeholder
/// elements of `element_size` bytes, once it holds `count` elements.
pub fn size_of_container(container_size: usize, element_size: usize, count: usize) -> (r: usize)
    requires
        element_size * sys::MAPI_DIM <= container_size,
        container_size - element_size * sys::MAPI_DIM + element_size * count <= usize::MAX,
    ensures
        r == sized_container(container_size as nat, element_size as nat, count as nat),
{
    let mapi_dim_element_size = element_size * sys::MAPI_DIM;
    let base_container_size = container_size - mapi_dim_element_size;
    proof {
        assert(element_size * count >= 0) by (nonlinear_arith);
    }
    let elements_size = element_size * count;
    base_container_size + elements_size
}

/// The size of an `ENTRYID` with `count` bytes in `ab`.
pub fn CbNewENTRYID(count: usize) -> (r: usize)
    requires
        sized_container(sys::SIZE_OF_ENTRYID as nat, 1, count as nat) <= usize::MAX,
    ensures
        r == sized_container(sys::SIZE_OF_ENTRYID as nat, 1, count as nat),
{
    size_of_container(sys::SIZE_OF_ENTRYID, 1, count)
}

/// The size of an `ENTRYID` with `count` bytes in `ab`. An `ENTRYID` does not record its
/// length, so this is [`CbNewENTRYID`] under another name.
pub fn CbENTRYID(count: usize) -> (r: usize)
    requires
        sized_container(sys::SIZE_OF_ENTRYID as nat, 1, count as nat) <= usize::MAX,
    ensures
        r == sized_container(sys::SIZE_OF_ENTRYID as nat, 1, count as nat),
{
    CbNewENTRYID(count)
}

/// The size of an `SPropTagArray` with `count` tags in `aulPropTag`.
pub fn CbNewSPropTagArray(count: usize) -> (r: usize)
    requires
        sized_container(sys::SIZE_OF_SPROPTAGARRAY as nat, 4, count as nat) <= usize::MAX,
    ensures
        r == sized_container(sys::SIZE_OF_SPROPTAGARRAY as nat, 4, count as nat),
{
    size_of_container(sys::SIZE_OF_SPROPTAGARRAY, 4, count)
}

/// The size of the `SPropTagArray` whose header is given, from its `cValues` member.
pub fn CbSPropTagArray(prop_tag_array: &sys::SPropTagArray) -> (r: usize)
    requires
        sized_container(
            sys::SIZE_OF_SPROPTAGARRAY as nat,
            4,
            prop_tag_array.cValues as nat,
        ) <= usize::MAX,
    ensures
        r == sized_container(sys::SIZE_OF_SPROPTAGARRAY as nat, 4, prop_tag_array.cValues as nat),
{
    CbNewSPropTagArray(prop_tag_array.cValues as usize)
}

/// The size of an `SPropProblemArray` with `count` problems in `aProblem`.
pub fn CbNewSPropProblemArray(count: usize) -> (r: usize)
    requires
        sized_container(
            sys::SIZE_OF_SPROPPROBLEMARRAY as nat,
            sys::SIZE_OF_SPROPPROBLEM as nat,
            count as nat,
        ) <= usize::MAX,
    ensures
        r == sized_container(
            sys::SIZE_OF_SPROPPROBLEMARRAY as nat,
            sys::SIZE_OF_SPROPPROBLEM as nat,
            count as nat,
        ),
{
    size_of_container(sys::SIZE_OF_SPROPPROBLEMARRAY, sys::SIZE_OF_SPROPPROBLEM, count)
}

/// The size of the `SPropProblemArray` whose header is given, from its `cProblem` member.
pub fn CbSPropProblemArray(prop_problem_array: &sys::SPropProblemArray) -> (r: usize)
    requires
        sized_container(
            sys::SIZE_OF_SPROPPROBLEMARRAY as nat,
            sys::SIZE_OF_SPROPPROBLEM as nat,
            prop_problem_array.cProblem as nat,
        ) <= usize::MAX,
    ensures
        r == sized_container(
            sys::SIZE_OF_SPROPPROBLEMARRAY as nat,
            sys::SIZE_OF_SPROPPROBLEM as nat,
            prop_problem_array.cProblem as nat,
        ),
{
    CbNewSPropProblemArray(prop_problem_array.cProblem as usize)
}

/// The size of a `FLATENTRY` with `count` bytes in `abEntry`.
pub fn CbNewFLATENTRY(count: usize) -> (r: usize)
    requires
        sized_container(sys::SIZE_OF_FLATENTRY as nat, 1, count as nat) <= usize::MAX,
    ensures
        r == sized_container(sys::SIZE_OF_FLATENTRY as nat, 1, count as nat),
{
    size_of_container(sys::SIZE_OF_FLATENTRY, 1, count)
}

/// The size of the `FLATENTRY` whose header is given, from its `cb` member.
pub fn CbFLATENTRY(flat_entry: &sys::FLATENTRY) -> (r: usize)
    requires
        sized_container(sys::SIZE_OF_FLATENTRY as nat, 1, flat_entry.cb as nat) <= usize::MAX,
    ensures
        r == sized_container(sys::SIZE_OF_FLATENTRY as nat, 1, flat_entry.cb as nat),
{
    CbNewFLATENTRY(flat_entry.cb as usize)
}

/// The size of a `FLATENTRYLIST` with `count` bytes in `abEntries`.
pub fn CbNewFLATENTRYLIST(count: usize) -> (r: usize)
    requires
        sized_container(sys::SIZE_OF_FLATENTRYLIST as nat, 1, count as nat) <= usize::MAX,
    ensures
        r == sized_container(sys::SIZE_OF_FLATENTRYLIST as nat, 1, count as nat),
{
    size_of_container(sys::SIZE_OF_FLATENTRYLIST, 1, count)
}

/// The size of the `FLATENTRYLIST` whose header is given, from its `cbEntries` member.
pub fn CbFLATENTRYLIST(flat_entry_list: &sys::FLATENTRYLIST) -> (r: usize)
    requires
        sized_container(
            sys::SIZE_OF_FLATENTRYLIST as nat,
            1,
            flat_entry_list.cbEntries as nat,
        ) <= usize::MAX,
    ensures
        r == sized_container(
            sys::SIZE_OF_FLATENTRYLIST as nat,
            1,
            flat_entry_list.cbEntries as nat,
        ),
{
    CbNewFLATENTRYLIST(flat_entry_list.cbEntries as usize)
}

/// The size of an `MTSID` with `count` bytes in `ab`.
pub fn CbNewMTSID(count: usize) -> (r: usize)
    requires
        sized_container(sys::SIZE_OF_MTSID as nat, 1, count as nat) <= usize::MAX,
    ensures
        r == sized_container(sys::SIZE_OF_MTSID as nat, 1, count as nat),
{
    size_of_container(sys::SIZE_OF_MTSID, 1, count)
}

/// The size of the `MTSID` whose header is given, from its `cb` member.
pub fn CbMTSID(mtsid: &sys::MTSID) -> (r: usize)
    requires
        sized_container(sys::SIZE_OF_MTSID as nat, 1, mtsid.cb as nat) <= usize::MAX,
    ensures
        r == sized_container(sys::SIZE_OF_MTSID as nat, 1, mtsid.cb as nat),
{
    CbNewMTSID(mtsid.cb as usize)
}

/// The size of a `FLATMTSIDLIST` with `count` bytes in `abMTSIDs`.
pub fn CbNewFLATMTSIDLIST(count: usize) -> (r: usize)
    requires
        sized_container(sys::SIZE_OF_FLATMTSIDLIST as nat, 1, count as nat) <= usize::MAX,
    ensures
        r == sized_container(sys::SIZE_OF_FLATMTSIDLIST as nat, 1, count as nat),
{
    size_of_container(sys::SIZE_OF_FLATMTSIDLIST, 1, count)
}

/// The size of the `FLATMTSIDLIST` whose header is given, from its `cbMTSIDs` member.
pub fn CbFLATMTSIDLIST(mtsid_list: &sys::FLATMTSIDLIST) -> (r: usize)
    requires
        sized_container(
            sys::SIZE_OF_FLATMTSIDLIST as nat,
            1,
            mtsid_list.cbMTSIDs as nat,
        ) <= usize::MAX,
    ensures
        r == sized_container(sys::SIZE_OF_FLATMTSIDLIST as nat, 1, mtsid_list.cbMTSIDs as nat),
{
    CbNewFLATMTSIDLIST(mtsid_list.cbMTSIDs as usize)
}

/// The size of an `ADRLIST` with `count` entries in `aEntries`.
pub fn CbNewADRLIST(count: usize) -> (r: usize)
    requires
        sized_container(
            sys::SIZE_OF_ADRLIST as nat,
            sys::SIZE_OF_ADRENTRY as nat,
            count as nat,
        ) <= usize::MAX,
    ensures
        r == sized_container(
            sys::SIZE_OF_ADRLIST as nat,
            sys::SIZE_OF_ADRENTRY as nat,
            count as nat,
        ),
{
    size_of_container(sys::SIZE_OF_ADRLIST, sys::SIZE_OF_ADRENTRY, count)
}

/// The size of the `ADRLIST` whose header is given, from its `cEntries` member.
pub fn CbADRLIST(adr_list: &sys::ADRLIST) -> (r: usize)
    requires
        sized_container(
            sys::SIZE_OF_ADRLIST as nat,
            sys::SIZE_OF_ADRENTRY as nat,
            adr_list.cEntries as nat,
        ) <= usize::MAX,
    ensures
        r == sized_container(
            sys::SIZE_OF_ADRLIST as nat,
            sys::SIZE_OF_ADRENTRY as nat,
            adr_list.cEntries as nat,
        ),
{
    CbNewADRLIST(adr_list.cEntries as usize)
}

/// The size of an `SRowSet` with `count` rows in `aRow`.
pub fn CbNewSRowSet(count: usize) -> (r: usize)
    requires
        sized_container(
            sys::SIZE_OF_SROWSET as nat,
            sys::SIZE_OF_SROW as nat,
            count as nat,
        ) <= usize::MAX,
    ensures
        r == sized_container(sys::SIZE_OF_SROWSET as nat, sys::SIZE_OF_SROW as nat, count as nat),
{
    size_of_container(sys::SIZE_OF_SROWSET, sys::SIZE_OF_SROW, count)
}

/// The size of the `SRowSet` whose header is given, from its `cRows` member.
pub fn CbSRowSet(row_set: &sys::SRowSet) -> (r: usize)
    requires
        sized_container(
            sys::SIZE_OF_SROWSET as nat,
            sys::SIZE_OF_SROW as nat,
            row_set.cRows as nat,
        ) <= usize::MAX,
    ensures
        r == sized_container(
            sys::SIZE_OF_SROWSET as nat,
            sys::SIZE_OF_SROW as nat,
            row_set.cRows as nat,
        ),
{
    CbNewSRowSet(row_set.cRows as usize)
}

/// The size of an `SSortOrderSet` with `count` sort orders in `aSort`.
pub fn CbNewSSortOrderSet(count: usize) -> (r: usize)
    requires
        sized_container(
            sys::SIZE_OF_SSORTORDERSET as nat,
            sys::SIZE_OF_SSORTORDER as nat,
            count as nat,
        ) <= usize::MAX,
    ensures
        r == sized_container(
            sys::SIZE_OF_SSORTORDERSET as nat,
            sys::SIZE_OF_SSORTORDER as nat,
            count as nat,
        ),
{
    size_of_container(sys::SIZE_OF_SSORTORDERSET, sys::SIZE_OF_SSORTORDER, count)
}

/// The size of the `SSortOrderSet` whose header is given, from its `cSorts` member.
pub fn CbSSortOrderSet(sort_order_set: &sys::SSortOrderSet) -> (r: usize)
    requires
        sized_container(
            sys::SIZE_OF_SSORTORDERSET as nat,
            sys::SIZE_OF_SSORTORDER as nat,
            sort_order_set.cSorts as nat,
        ) <= usize::MAX,
    ensures
        r == sized_container(
            sys::SIZE_OF_SSORTORDERSET as nat,
            sys::SIZE_OF_SSORTORDER as nat,
            sort_order_set.cSorts as nat,
        ),
{
    CbNewSSortOrderSet(sort_order_set.cSorts as usize)
}

} // verus!
