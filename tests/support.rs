use outlook_mapi::flags::{initialize_params, logon_string};
use outlook_mapi::installation::{binary_architecture, select_installation};
use outlook_mapi::sys;
use outlook_mapi::{
    no_arg_size, Architecture, InitializeFlags, InstallationState, LogonFlags, NoArgSizeTable,
};

#[test]
fn initialize_flags_word() {
    assert_eq!(u32::from(InitializeFlags::default()), 0);
    let flags = InitializeFlags {
        multithread_notifications: true,
        nt_service: true,
        no_coinit: false,
    };
    assert_eq!(u32::from(flags), 0x0001_0001);
    let (version, word) = initialize_params(InitializeFlags {
        no_coinit: true,
        ..Default::default()
    });
    assert_eq!(version, sys::MAPI_INIT_VERSION);
    assert_eq!(word, sys::MAPI_NO_COINIT);
}

#[test]
fn logon_flags_word() {
    assert_eq!(u32::from(LogonFlags::default()), 0);
    let flags = LogonFlags {
        extended: true,
        unicode: true,
        logon_ui: true,
        ..Default::default()
    };
    assert_eq!(u32::from(flags), 0x8000_0021);
    let all = LogonFlags {
        allow_others: true,
        bg_session: true,
        explicit_profile: true,
        extended: true,
        force_download: true,
        logon_ui: true,
        new_session: true,
        no_mail: true,
        nt_service: true,
        service_ui_always: true,
        timeout_short: true,
        unicode: true,
        use_default: true,
    };
    assert_eq!(u32::from(all), 0x8031_B07B);
}

#[test]
fn logon_string_is_nul_terminated() {
    assert_eq!(logon_string("Outlook"), b"Outlook\0".to_vec());
    assert_eq!(logon_string(""), vec![0]);
}

#[test]
fn plain_export_names() {
    assert!(no_arg_size("FixMAPI"));
    assert!(no_arg_size("MAPIAllocateBuffer"));
    assert!(no_arg_size("g_dwRpcThreshold"));
    assert!(!no_arg_size("MAPIAllocateBuffe"));
    assert!(!no_arg_size("mapiallocatebuffer"));
    assert!(!no_arg_size(""));
    let table = NoArgSizeTable::new();
    assert!(table.contains("HrSetOmiProvidersFlagsInvalid"));
    assert!(table.contains("WrapCompressedRTFStreamEx"));
    assert!(!table.contains("HrGetOneProp"));
}

#[test]
fn binary_types() {
    assert_eq!(binary_architecture(0), Some(Architecture::X86));
    assert_eq!(binary_architecture(6), Some(Architecture::X64));
    assert_eq!(binary_architecture(1), None);
}

fn describe(state: InstallationState) -> Option<(Architecture, String, bool)> {
    match state {
        InstallationState::Installed {
            architecture,
            dll_path,
            is_outlook_installed,
        } => Some((architecture, dll_path, is_outlook_installed)),
        InstallationState::NotInstalled => None,
    }
}

#[test]
fn outlook_installation_wins() {
    let outlook = vec![None, None, None, Some(String::from("C:\\x86\\olmapi32.dll"))];
    let fallback = vec![Some((6, String::from("C:\\office\\olmapi32.dll")))];
    assert_eq!(
        describe(select_installation(&outlook, &fallback)),
        Some((Architecture::X86, String::from("C:\\x86\\olmapi32.dll"), true))
    );
    let outlook = vec![None, None, Some(String::from("C:\\x64\\olmapi32.dll"))];
    assert_eq!(
        describe(select_installation(&outlook, &fallback)),
        Some((Architecture::X64, String::from("C:\\x64\\olmapi32.dll"), true))
    );
}

#[test]
fn office_fallback_skips_unsupported_binaries() {
    let outlook = vec![None, None];
    let fallback = vec![
        None,
        Some((2, String::from("C:\\dos\\olmapi32.dll"))),
        Some((0, String::from("C:\\word\\olmapi32.dll"))),
        Some((6, String::from("C:\\excel\\olmapi32.dll"))),
    ];
    assert_eq!(
        describe(select_installation(&outlook, &fallback)),
        Some((Architecture::X86, String::from("C:\\word\\olmapi32.dll"), false))
    );
    assert_eq!(describe(select_installation(&outlook, &vec![None])), None);
    assert_eq!(describe(select_installation(&vec![], &vec![])), None);
}
