//! The constants and structure headers of MAPI that this crate reads.
//!
//! Structure sizes are those of the 64-bit layouts.

use vstd::prelude::*;

verus! {

/// The placeholder length with which MAPI declares its variable-length arrays.
pub const MAPI_DIM: usize = 1;

pub const PT_UNSPECIFIED: u32 = 0x0000;
pub const PT_NULL: u32 = 0x0001;
pub const PT_SHORT: u32 = 0x0002;
pub const PT_I2: u32 = 0x0002;
pub const PT_LONG: u32 = 0x0003;
pub const PT_I4: u32 = 0x0003;
pub const PT_FLOAT: u32 = 0x0004;
pub const PT_R4: u32 = 0x0004;
pub const PT_DOUBLE: u32 = 0x0005;
pub const PT_R8: u32 = 0x0005;
pub const PT_CURRENCY: u32 = 0x0006;
pub const PT_APPTIME: u32 = 0x0007;
pub const PT_ERROR: u32 = 0x000A;
pub const PT_BOOLEAN: u32 = 0x000B;
pub const PT_OBJECT: u32 = 0x000D;
pub const PT_LONGLONG: u32 = 0x0014;
pub const PT_I8: u32 = 0x0014;
pub const PT_STRING8: u32 = 0x001E;
pub const PT_UNICODE: u32 = 0x001F;
pub const PT_SYSTIME: u32 = 0x0040;
pub const PT_CLSID: u32 = 0x0048;
pub const PT_BINARY: u32 = 0x0102;
pub const PT_PTR: u32 = 0x0103;
pub const PT_FILE_HANDLE: u32 = 0x0103;

/// Flag of the multi-valued property types.
pub const MV_FLAG: u32 = 0x1000;
/// Flag asking for one row per value of a multi-valued property.
pub const MV_INSTANCE: u32 = 0x2000;

pub const PT_MV_SHORT: u32 = 0x1002;
pub const PT_MV_LONG: u32 = 0x1003;
pub const PT_MV_FLOAT: u32 = 0x1004;
pub const PT_MV_DOUBLE: u32 = 0x1005;
pub const PT_MV_CURRENCY: u32 = 0x1006;
pub const PT_MV_APPTIME: u32 = 0x1007;
pub const PT_MV_LONGLONG: u32 = 0x1014;
pub const PT_MV_STRING8: u32 = 0x101E;
pub const PT_MV_UNICODE: u32 = 0x101F;
pub const PT_MV_SYSTIME: u32 = 0x1040;
pub const PT_MV_CLSID: u32 = 0x1048;
pub const PT_MV_BINARY: u32 = 0x1102;

/// Version of the `MAPIINIT` structure.
pub const MAPI_INIT_VERSION: u32 = 0;
/// `MAPIInitialize`: deliver notifications on a dedicated thread.
pub const MAPI_MULTITHREAD_NOTIFICATIONS: u32 = 0x0000_0001;
/// `MAPIInitialize`: do not initialize COM.
pub const MAPI_NO_COINIT: u32 = 0x0000_0008;
/// `MAPIInitialize` and `MAPILogonEx`: the caller is a Windows service.
pub const MAPI_NT_SERVICE: u32 = 0x0001_0000;

pub const MAPI_LOGON_UI: u32 = 0x0000_0001;
pub const MAPI_NEW_SESSION: u32 = 0x0000_0002;
pub const MAPI_ALLOW_OTHERS: u32 = 0x0000_0008;
pub const MAPI_EXPLICIT_PROFILE: u32 = 0x0000_0010;
pub const MAPI_EXTENDED: u32 = 0x0000_0020;
pub const MAPI_USE_DEFAULT: u32 = 0x0000_0040;
pub const MAPI_FORCE_DOWNLOAD: u32 = 0x0000_1000;
pub const MAPI_SERVICE_UI_ALWAYS: u32 = 0x0000_2000;
pub const MAPI_NO_MAIL: u32 = 0x0000_8000;
pub const MAPI_TIMEOUT_SHORT: u32 = 0x0010_0000;
pub const MAPI_BG_SESSION: u32 = 0x0020_0000;
pub const MAPI_UNICODE: u32 = 0x8000_0000;

/// `sizeof(ENTRYID)`: four flag bytes and one placeholder byte.
pub const SIZE_OF_ENTRYID: usize = 5;
/// `sizeof(SPropTagArray)`: a count and one placeholder tag.
pub const SIZE_OF_SPROPTAGARRAY: usize = 8;
/// `sizeof(SPropProblem)`: index, tag and status, four bytes each.
pub const SIZE_OF_SPROPPROBLEM: usize = 12;
/// `sizeof(SPropProblemArray)`: a count and one placeholder problem.
pub const SIZE_OF_SPROPPROBLEMARRAY: usize = 16;
/// `sizeof(FLATENTRY)`: a byte count and one placeholder byte, padded to four.
pub const SIZE_OF_FLATENTRY: usize = 8;
/// `sizeof(FLATENTRYLIST)`: two counts and one placeholder byte, padded to four.
pub const SIZE_OF_FLATENTRYLIST: usize = 12;
/// `sizeof(MTSID)`: a byte count and one placeholder byte, padded to four.
pub const SIZE_OF_MTSID: usize = 8;
/// `sizeof(FLATMTSIDLIST)`: two counts and one placeholder byte, padded to four.
pub const SIZE_OF_FLATMTSIDLIST: usize = 12;
/// `sizeof(ADRENTRY)`: two `u32` fields and a pointer.
pub const SIZE_OF_ADRENTRY: usize = 16;
/// `sizeof(ADRLIST)`: a count padded to eight and one placeholder entry.
pub const SIZE_OF_ADRLIST: usize = 24;
/// `sizeof(SRow)`: two `u32` fields and a pointer.
pub const SIZE_OF_SROW: usize = 16;
/// `sizeof(SRowSet)`: a count padded to eight and one placeholder row.
pub const SIZE_OF_SROWSET: usize = 24;
/// `sizeof(SSortOrder)`: a tag and an order.
pub const SIZE_OF_SSORTORDER: usize = 8;
/// `sizeof(SSortOrderSet)`: three counts and one placeholder sort order.
pub const SIZE_OF_SSORTORDERSET: usize = 20;

/// The counted header of an `SPropTagArray`.
pub struct SPropTagArray {
    pub cValues: u32,
}

/// The counted header of an `SPropProblemArray`.
pub struct SPropProblemArray {
    pub cProblem: u32,
}

/// The counted header of a `FLATENTRY`.
pub struct FLATENTRY {
    pub cb: u32,
}

/// The counted header of a `FLATENTRYLIST`.
pub struct FLATENTRYLIST {
    pub cEntries: u32,
    pub cbEntries: u32,
}

/// The counted header of an `MTSID`.
pub struct MTSID {
    pub cb: u32,
}

/// The counted header of a `FLATMTSIDLIST`.
pub struct FLATMTSIDLIST {
    pub cMTSIDs: u32,
    pub cbMTSIDs: u32,
}

/// The counted header of an `ADRLIST`.
pub struct ADRLIST {
    pub cEntries: u32,
}

/// The header of an `SSortOrderSet`.
pub struct SSortOrderSet {
    pub cSorts: u32,
    pub cCategories: u32,
    pub cExpanded: u32,
}

/// One row of a table: a count of property values and the address of their buffer, `0` when
/// there is none.
pub struct SRow {
    pub ulAdrEntryPad: u32,
    pub cValues: u32,
    pub lpProps: usize,
}

/// A set of rows as a table returns it.
pub struct SRowSet {
    pub cRows: u32,
    pub aRow: Vec<SRow>,
}

} // verus!
