use outlook_mapi::sys;
use outlook_mapi::{
    CbADRLIST, CbENTRYID, CbNewADRLIST, CbNewENTRYID, CbNewFLATENTRY, CbNewFLATENTRYLIST,
    CbNewFLATMTSIDLIST, CbNewMTSID, CbNewSPropProblemArray, CbNewSPropTagArray, CbNewSRowSet,
    CbNewSSortOrderSet, CbSPropProblemArray, CbSPropTagArray, CbSRowSet, CbSSortOrderSet,
    CbFLATENTRY, CbFLATENTRYLIST, CbMTSID, CbFLATMTSIDLIST,
};

// Sizes of the 64-bit layouts, with the placeholder element replaced by `count` elements.

#[test]
fn sized_entry_id() {
    // struct { abFlags: [u8; 4], ab: [u8; 12] }
    assert_eq!(16, CbNewENTRYID(12));
    assert_eq!(sys::SIZE_OF_ENTRYID, CbNewENTRYID(1));
    assert_eq!(sys::SIZE_OF_ENTRYID, CbENTRYID(1));
    assert_eq!(CbNewENTRYID(12), CbENTRYID(12));
    assert_eq!(4, CbNewENTRYID(0));
}

#[test]
fn sized_prop_tag_array() {
    // struct { cValues: u32, aulPropTag: [u32; 2] }
    assert_eq!(12, CbNewSPropTagArray(2));
    let prop_tag_array = sys::SPropTagArray { cValues: 2 };
    assert_eq!(sys::SIZE_OF_SPROPTAGARRAY, CbNewSPropTagArray(1));
    assert_eq!(CbNewSPropTagArray(2), CbSPropTagArray(&prop_tag_array));
    assert_eq!(prop_tag_array.cValues, 2);
}

#[test]
fn sized_prop_problem_array() {
    // struct { cProblem: u32, aProblem: [SPropProblem; 2] }
    assert_eq!(28, CbNewSPropProblemArray(2));
    let prop_problem_array = sys::SPropProblemArray { cProblem: 2 };
    assert_eq!(sys::SIZE_OF_SPROPPROBLEMARRAY, CbNewSPropProblemArray(1));
    assert_eq!(
        CbNewSPropProblemArray(2),
        CbSPropProblemArray(&prop_problem_array)
    );
    assert_eq!(prop_problem_array.cProblem, 2);
}

#[test]
fn sized_flat_lists() {
    assert_eq!(sys::SIZE_OF_FLATENTRY, CbNewFLATENTRY(1));
    assert_eq!(sys::SIZE_OF_FLATENTRYLIST, CbNewFLATENTRYLIST(1));
    assert_eq!(sys::SIZE_OF_MTSID, CbNewMTSID(1));
    assert_eq!(sys::SIZE_OF_FLATMTSIDLIST, CbNewFLATMTSIDLIST(1));
}

#[test]
fn sized_flat_lists_from_headers() {
    assert_eq!(17, CbFLATENTRY(&sys::FLATENTRY { cb: 10 }));
    assert_eq!(
        21,
        CbFLATENTRYLIST(&sys::FLATENTRYLIST { cEntries: 1, cbEntries: 10 })
    );
    assert_eq!(7, CbMTSID(&sys::MTSID { cb: 0 }));
    assert_eq!(
        14,
        CbFLATMTSIDLIST(&sys::FLATMTSIDLIST { cMTSIDs: 1, cbMTSIDs: 3 })
    );
}

#[test]
fn sized_adr_list() {
    // struct { cEntries: u32, aEntries: [ADRENTRY; 2] }
    assert_eq!(40, CbNewADRLIST(2));
    let adr_list = sys::ADRLIST { cEntries: 2 };
    assert_eq!(sys::SIZE_OF_ADRLIST, CbNewADRLIST(1));
    assert_eq!(CbNewADRLIST(2), CbADRLIST(&adr_list));
    assert_eq!(adr_list.cEntries, 2);
}

#[test]
fn sized_row_set() {
    // struct { cRows: u32, aRow: [SRow; 2] }
    assert_eq!(40, CbNewSRowSet(2));
    let row = || sys::SRow {
        ulAdrEntryPad: 0,
        cValues: 0,
        lpProps: 0,
    };
    let row_set = sys::SRowSet {
        cRows: 2,
        aRow: vec![row(), row()],
    };
    assert_eq!(sys::SIZE_OF_SROWSET, CbNewSRowSet(1));
    assert_eq!(CbNewSRowSet(2), CbSRowSet(&row_set));
    assert_eq!(row_set.cRows, 2);
}

#[test]
fn sized_sort_order_set() {
    // struct { cSorts: u32, cCategories: u32, cExpanded: u32, aSort: [SSortOrder; 3] }
    assert_eq!(36, CbNewSSortOrderSet(3));
    let sort_order_set = sys::SSortOrderSet {
        cSorts: 3,
        cCategories: 1,
        cExpanded: 1,
    };
    assert_eq!(sys::SIZE_OF_SSORTORDERSET, CbNewSSortOrderSet(1));
    assert_eq!(CbNewSSortOrderSet(3), CbSSortOrderSet(&sort_order_set));
    assert_eq!(sort_order_set.cSorts, 3);
    assert_eq!(sort_order_set.cCategories, 1);
    assert_eq!(sort_order_set.cExpanded, 1);
}
