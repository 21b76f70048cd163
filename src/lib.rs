//! Safe ownership layer over MAPI's root/chained buffer allocator, together with the
//! property tag helpers and the sizes of MAPI's variable-length structures.
#![allow(non_snake_case)]

pub mod export_names;
pub mod flags;
pub mod installation;
pub mod mapi_ptr;
pub mod prop_tag;
pub mod prop_value;
pub mod row;
pub mod row_set;
pub mod sized_types;
pub mod sys;

pub use export_names::{no_arg_size, NoArgSizeTable};
pub use flags::{InitializeFlags, LogonFlags};
pub use installation::{Architecture, InstallationState};
pub use mapi_ptr::{
    AllocationView, ExternalAllocator, IterView, MAPIAllocError, MAPIBuffer, MAPIOutParam,
    MAPIUninit, MAPIUninitIter,
};
pub use prop_tag::{PropTag, PropType, PROP_ID_MASK, PROP_TYPE_MASK};
pub use prop_value::{value_kind, PropValueKind};
pub use row::Row;
pub use row_set::RowSet;
pub use sized_types::{
    CbADRLIST, CbENTRYID, CbFLATENTRY, CbFLATENTRYLIST, CbFLATMTSIDLIST, CbMTSID, CbNewADRLIST,
    CbNewENTRYID, CbNewFLATENTRY, CbNewFLATENTRYLIST, CbNewFLATMTSIDLIST, CbNewMTSID,
    CbNewSPropProblemArray, CbNewSPropTagArray, CbNewSRowSet, CbNewSSortOrderSet,
    CbSPropProblemArray, CbSPropTagArray, CbSRowSet, CbSSortOrderSet,
};
