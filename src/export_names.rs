//! The names of the MAPI exports that are looked up without an argument-size decoration.
//!
//! On 32-bit Windows, `stdcall` exports are decorated with `@` and the byte size of their
//! arguments. The exports named here are found under their plain name instead.

use vstd::prelude::*;
use vstd::string::StringSliceAdditionalSpecFns;

verus! {

/// Exports of `mapi32.dll` that carry no argument-size decoration.
pub open spec fn mapi_plain_names() -> Seq<&'static str> {
    seq![
        "FixMAPI",
        "GetOutlookVersion",
        "HrGetOmiProvidersFlags",
        "HrSetOmiProvidersFlagsInvalid",
    ]
}

/// Exports of `olmapi32.dll` that carry no argument-size decoration.
pub open spec fn olmapi_plain_names() -> Seq<&'static str> {
    seq![
        "BMAPIAddress",
        "BMAPIDetails",
        "BMAPIFindNext",
        "BMAPIGetAddress",
        "BMAPIGetReadMail",
        "BMAPIReadMail",
        "BMAPIResolveName",
        "BMAPISaveMail",
        "BMAPISendMail",
        "ClosePerformanceData",
        "CollectPerformanceData",
        "CreateMapiInitializationMonitor",
        "CreateObject",
        "DoDeliveryReport",
        "EndBoot",
        "EtwTraceMessage",
        "FGetComponentPath",
        "GetTnefStreamCodepage",
        "HrEnsureProviderResourceDLL",
        "HrGetDefaultStoragePathA",
        "HrGetDefaultStoragePathW",
        "HrGetEDPIdentifierFromStoreEIDOnMapi",
        "HrGetOpenTnefStream",
        "HrGetProviderResourceDLL",
        "HrNotify",
        "LAUNCHWIZARD",
        "MAPIAddress",
        "MAPIAdminProfiles",
        "MAPIAllocateBuffer",
        "MAPIAllocateBufferProv",
        "MAPIAllocateMore",
        "MAPIAllocateMoreProv",
        "MAPICrashRecovery",
        "MAPIDeleteMail",
        "MAPIDetails",
        "MAPIFindNext",
        "MAPIFreeBuffer",
        "MAPIInitialize",
        "MAPILogoff",
        "MAPILogon",
        "MAPILogonEx",
        "MAPIOpenFormMgr",
        "MAPIOpenLocalFormContainer",
        "MAPIReadMail",
        "MAPIResolveName",
        "MAPISaveMail",
        "MAPISendDocuments",
        "MAPISendMail",
        "MAPISendMailW",
        "MAPIUninitialize",
        "MAPIValidateAllocatedBuffer",
        "MSProviderInit",
        "OpenPerformanceData",
        "OpenStreamOnFile",
        "OpenStreamOnFileW",
        "OpenTnefStream",
        "OpenTnefStreamEx",
        "OverrideMAPIResourcePath",
        "PRProviderInit",
        "RPCTRACE",
        "RTFSync",
        "RTFSyncCpid",
        "RopString",
        "RpcTraceReadRegSettings",
        "ScMAPIXFromCMC",
        "ScMAPIXFromSMAPI",
        "Unload",
        "WrapCompressedRTFStream",
        "WrapCompressedRTFStreamEx",
        "fnevString",
        "g_dwRpcThreshold",
    ]
}

/// Whether `name` has the same bytes as one of `names`.
pub open spec fn listed(names: Seq<&'static str>, name: &str) -> bool {
    exists|i: int| 0 <= i < names.len() && (#[trigger] names[i]).spec_bytes() == name.spec_bytes()
}

/// The two tables of plain export names, built once and only read afterwards.
pub struct NoArgSizeTable {
    mapi: Vec<&'static str>,
    olmapi: Vec<&'static str>,
}

impl View for NoArgSizeTable {
    type V = (Seq<&'static str>, Seq<&'static str>);

    closed spec fn view(&self) -> (Seq<&'static str>, Seq<&'static str>) {
        (self.mapi@, self.olmapi@)
    }
}

fn bytes_eq(a: &[u8], b: &[u8]) -> (r: bool)
    ensures
        r == (a@ == b@),
{
    if a.len() != b.len() {
        return false;
    }
    let mut i: usize = 0;
    while i < a.len()
        invariant
            a@.len() == b@.len(),
            i <= a@.len(),
            forall|j: int| 0 <= j < i ==> a@[j] == b@[j],
        decreases a@.len() - i,
    {
        if a[i] != b[i] {
            return false;
        }
        i = i + 1;
    }
    assert(a@ =~= b@);
    true
}

fn contains_name(names: &Vec<&'static str>, name: &str) -> (r: bool)
    ensures
        r == listed(names@, name),
{
    let target = name.as_bytes();
    let mut i: usize = 0;
    while i < names.len()
        invariant
            i <= names@.len(),
            target@ == name.spec_bytes(),
            forall|j: int| 0 <= j < i ==> (#[trigger] names@[j]).spec_bytes() != name.spec_bytes(),
        decreases names@.len() - i,
    {
        if bytes_eq(names[i].as_bytes(), target) {
            return true;
        }
        i = i + 1;
    }
    false
}

impl NoArgSizeTable {
    /// Build both tables.
    pub fn new() -> (r: Self)
        ensures
            r@ == (mapi_plain_names(), olmapi_plain_names()),
    {
        let mapi = vec![
            "FixMAPI",
            "GetOutlookVersion",
            "HrGetOmiProvidersFlags",
            "HrSetOmiProvidersFlagsInvalid",
        ];
        let olmapi = vec![
            "BMAPIAddress",
            "BMAPIDetails",
            "BMAPIFindNext",
            "BMAPIGetAddress",
            "BMAPIGetReadMail",
            "BMAPIReadMail",
            "BMAPIResolveName",
            "BMAPISaveMail",
            "BMAPISendMail",
            "ClosePerformanceData",
            "CollectPerformanceData",
            "CreateMapiInitializationMonitor",
            "CreateObject",
            "DoDeliveryReport",
            "EndBoot",
            "EtwTraceMessage",
            "FGetComponentPath",
            "GetTnefStreamCodepage",
            "HrEnsureProviderResourceDLL",
            "HrGetDefaultStoragePathA",
            "HrGetDefaultStoragePathW",
            "HrGetEDPIdentifierFromStoreEIDOnMapi",
            "HrGetOpenTnefStream",
            "HrGetProviderResourceDLL",
            "HrNotify",
            "LAUNCHWIZARD",
            "MAPIAddress",
            "MAPIAdminProfiles",
            "MAPIAllocateBuffer",
            "MAPIAllocateBufferProv",
            "MAPIAllocateMore",
            "MAPIAllocateMoreProv",
            "MAPICrashRecovery",
            "MAPIDeleteMail",
            "MAPIDetails",
            "MAPIFindNext",
            "MAPIFreeBuffer",
            "MAPIInitialize",
            "MAPILogoff",
            "MAPILogon",
            "MAPILogonEx",
            "MAPIOpenFormMgr",
            "MAPIOpenLocalFormContainer",
            "MAPIReadMail",
            "MAPIResolveName",
            "MAPISaveMail",
            "MAPISendDocuments",
            "MAPISendMail",
            "MAPISendMailW",
            "MAPIUninitialize",
            "MAPIValidateAllocatedBuffer",
            "MSProviderInit",
            "OpenPerformanceData",
            "OpenStreamOnFile",
            "OpenStreamOnFileW",
            "OpenTnefStream",
            "OpenTnefStreamEx",
            "OverrideMAPIResourcePath",
            "PRProviderInit",
            "RPCTRACE",
            "RTFSync",
            "RTFSyncCpid",
            "RopString",
            "RpcTraceReadRegSettings",
            "ScMAPIXFromCMC",
            "ScMAPIXFromSMAPI",
            "Unload",
            "WrapCompressedRTFStream",
            "WrapCompressedRTFStreamEx",
            "fnevString",
            "g_dwRpcThreshold",
        ];
        let r = NoArgSizeTable { mapi, olmapi };
        assert(r@.0 =~= mapi_plain_names());
        assert(r@.1 =~= olmapi_plain_names());
        r
    }

    /// Whether `undecorated` is in either table.
    pub fn contains(&self, undecorated: &str) -> (r: bool)
        ensures
            r == (listed(self@.0, undecorated) || listed(self@.1, undecorated)),
    {
        contains_name(&self.mapi, undecorated) || contains_name(&self.olmapi, undecorated)
    }
}

/// Whether the export `undecorated` is looked up under its plain name.
pub fn no_arg_size(undecorated: &str) -> (r: bool)
    ensures
        r == (listed(mapi_plain_names(), undecorated) || listed(olmapi_plain_names(), undecorated)),
{
    let table = NoArgSizeTable::new();
    table.contains(undecorated)
}

} // verus!
