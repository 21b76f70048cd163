//! Flag sets for `MAPIInitialize` and `MAPILogonEx`.

use crate::sys;
use vstd::prelude::*;
use vstd::string::StringSliceAdditionalSpecFns;

verus! {

/// Flags passed to `MAPIInitialize` in the `ulFlags` member of `MAPIINIT`.
#[derive(Default)]
pub struct InitializeFlags {
    /// Pass `MAPI_MULTITHREAD_NOTIFICATIONS`.
    pub multithread_notifications: bool,
    /// Pass `MAPI_NT_SERVICE`.
    pub nt_service: bool,
    /// Pass `MAPI_NO_COINIT`.
    pub no_coinit: bool,
}

/// The flag word of a [`InitializeFlags`]: the flags whose fields are set.
pub open spec fn initialize_flag_word(v: InitializeFlags) -> u32 {
    (if v.multithread_notifications { sys::MAPI_MULTITHREAD_NOTIFICATIONS } else { 0 })
        | (if v.nt_service { sys::MAPI_NT_SERVICE } else { 0 })
        | (if v.no_coinit { sys::MAPI_NO_COINIT } else { 0 })
}

impl From<InitializeFlags> for u32 {
    fn from(value: InitializeFlags) -> (r: u32) {
        let multithread_notifications: u32 = if value.multithread_notifications {
            sys::MAPI_MULTITHREAD_NOTIFICATIONS
        } else {
            0
        };
        let nt_service: u32 = if value.nt_service {
            sys::MAPI_NT_SERVICE
        } else {
            0
        };
        let no_coinit: u32 = if value.no_coinit {
            sys::MAPI_NO_COINIT
        } else {
            0
        };
        multithread_notifications | nt_service | no_coinit
    }
}

impl vstd::std_specs::convert::FromSpecImpl<InitializeFlags> for u32 {
    open spec fn obeys_from_spec() -> bool {
        true
    }

    open spec fn from_spec(v: InitializeFlags) -> u32 {
        initialize_flag_word(v)
    }
}

/// Flags passed to `MAPILogonEx`.
#[derive(Default)]
pub struct LogonFlags {
    /// Pass `MAPI_ALLOW_OTHERS`.
    pub allow_others: bool,
    /// Pass `MAPI_BG_SESSION`.
    pub bg_session: bool,
    /// Pass `MAPI_EXPLICIT_PROFILE`.
    pub explicit_profile: bool,
    /// Pass `MAPI_EXTENDED`.
    pub extended: bool,
    /// Pass `MAPI_FORCE_DOWNLOAD`.
    pub force_download: bool,
    /// Pass `MAPI_LOGON_UI`.
    pub logon_ui: bool,
    /// Pass `MAPI_NEW_SESSION`.
    pub new_session: bool,
    /// Pass `MAPI_NO_MAIL`.
    pub no_mail: bool,
    /// Pass `MAPI_NT_SERVICE`.
    pub nt_service: bool,
    /// Pass `MAPI_SERVICE_UI_ALWAYS`.
    pub service_ui_always: bool,
    /// Pass `MAPI_TIMEOUT_SHORT`.
    pub timeout_short: bool,
    /// Pass `MAPI_UNICODE`.
    pub unicode: bool,
    /// Pass `MAPI_USE_DEFAULT`.
    pub use_default: bool,
}

/// The flag word of a [`LogonFlags`]: the flags whose fields are set.
pub open spec fn logon_flag_word(v: LogonFlags) -> u32 {
    (if v.allow_others { sys::MAPI_ALLOW_OTHERS } else { 0 })
        | (if v.bg_session { sys::MAPI_BG_SESSION } else { 0 })
        | (if v.explicit_profile { sys::MAPI_EXPLICIT_PROFILE } else { 0 })
        | (if v.extended { sys::MAPI_EXTENDED } else { 0 })
        | (if v.force_download { sys::MAPI_FORCE_DOWNLOAD } else { 0 })
        | (if v.logon_ui { sys::MAPI_LOGON_UI } else { 0 })
        | (if v.new_session { sys::MAPI_NEW_SESSION } else { 0 })
        | (if v.no_mail { sys::MAPI_NO_MAIL } else { 0 })
        | (if v.nt_service { sys::MAPI_NT_SERVICE } else { 0 })
        | (if v.service_ui_always { sys::MAPI_SERVICE_UI_ALWAYS } else { 0 })
        | (if v.timeout_short { sys::MAPI_TIMEOUT_SHORT } else { 0 })
        | (if v.unicode { sys::MAPI_UNICODE } else { 0 })
        | (if v.use_default { sys::MAPI_USE_DEFAULT } else { 0 })
}

impl From<LogonFlags> for u32 {
    fn from(value: LogonFlags) -> (r: u32) {
        let allow_others: u32 = if value.allow_others {
            sys::MAPI_ALLOW_OTHERS
        } else {
            0
        };
        let bg_session: u32 = if value.bg_session {
            sys::MAPI_BG_SESSION
        } else {
            0
        };
        let explicit_profile: u32 = if value.explicit_profile {
            sys::MAPI_EXPLICIT_PROFILE
        } else {
            0
        };
        let extended: u32 = if value.extended {
            sys::MAPI_EXTENDED
        } else {
            0
        };
        let force_download: u32 = if value.force_download {
            sys::MAPI_FORCE_DOWNLOAD
        } else {
            0
        };
        let logon_ui: u32 = if value.logon_ui {
            sys::MAPI_LOGON_UI
        } else {
            0
        };
        let new_session: u32 = if value.new_session {
            sys::MAPI_NEW_SESSION
        } else {
            0
        };
        let no_mail: u32 = if value.no_mail {
            sys::MAPI_NO_MAIL
        } else {
            0
        };
        let nt_service: u32 = if value.nt_service {
            sys::MAPI_NT_SERVICE
        } else {
            0
        };
        let service_ui_always: u32 = if value.service_ui_always {
            sys::MAPI_SERVICE_UI_ALWAYS
        } else {
            0
        };
        let timeout_short: u32 = if value.timeout_short {
            sys::MAPI_TIMEOUT_SHORT
        } else {
            0
        };
        let unicode: u32 = if value.unicode {
            sys::MAPI_UNICODE
        } else {
            0
        };
        let use_default: u32 = if value.use_default {
            sys::MAPI_USE_DEFAULT
        } else {
            0
        };
        allow_others | bg_session | explicit_profile | extended | force_download | logon_ui
            | new_session | no_mail | nt_service | service_ui_always | timeout_short | unicode
            | use_default
    }
}

impl vstd::std_specs::convert::FromSpecImpl<LogonFlags> for u32 {
    open spec fn obeys_from_spec() -> bool {
        true
    }

    open spec fn from_spec(v: LogonFlags) -> u32 {
        logon_flag_word(v)
    }
}

/// The `MAPIINIT` structure that `MAPIInitialize` takes: its version and its flags.
pub fn initialize_params(flags: InitializeFlags) -> (r: (u32, u32))
    ensures
        r == (sys::MAPI_INIT_VERSION, initialize_flag_word(flags)),
{
    (sys::MAPI_INIT_VERSION, u32::from(flags))
}

/// The NUL-terminated bytes that `MAPILogonEx` takes for a profile name or a password.
pub fn logon_string(value: &str) -> (r: Vec<u8>)
    ensures
        r@ == value.spec_bytes().push(0),
{
    let bytes = value.as_bytes();
    let mut r: Vec<u8> = Vec::new();
    let mut i: usize = 0;
    while i < bytes.len()
        invariant
            bytes@ == value.spec_bytes(),
            i <= bytes@.len(),
            r@ == bytes@.subrange(0, i as int),
        decreases bytes@.len() - i,
    {
        r.push(bytes[i]);
        i = i + 1;
    }
    r.push(0);
    assert(bytes@.subrange(0, bytes@.len() as int) =~= bytes@);
    r
}

} // verus!
