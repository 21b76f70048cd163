//! Which MAPI installation to load, decided from what probing the system found.

use vstd::prelude::*;

verus! {

/// `GetBinaryTypeW`'s code for a 32-bit Windows executable.
pub const SCS_32BIT_BINARY: u32 = 0;
/// `GetBinaryTypeW`'s code for a 64-bit Windows executable.
pub const SCS_64BIT_BINARY: u32 = 6;

/// Platform architecture of an installation.
#[derive(Debug, Clone, Copy, PartialEq, Eq, Structural)]
pub enum Architecture {
    X64,
    X86,
}

/// The outcome of looking for a MAPI installation.
pub enum InstallationState {
    /// MAPI was found.
    Installed {
        /// Platform architecture that is installed.
        architecture: Architecture,
        /// Path to `olmapi32.dll`.
        dll_path: String,
        /// Whether this is an Outlook installation (`true`) or one of another Office
        /// application, an unsupported fallback (`false`).
        is_outlook_installed: bool,
    },
    NotInstalled,
}

/// The architecture of an executable of the given binary type, if it is one MAPI supports.
pub open spec fn architecture_of(binary_type: u32) -> Option<Architecture> {
    if binary_type == SCS_32BIT_BINARY {
        Some(Architecture::X86)
    } else if binary_type == SCS_64BIT_BINARY {
        Some(Architecture::X64)
    } else {
        None
    }
}

/// The architecture of an executable of the given binary type, as `GetBinaryTypeW` reports it.
pub fn binary_architecture(binary_type: u32) -> (r: Option<Architecture>)
    ensures
        r == architecture_of(binary_type),
{
    if binary_type == SCS_32BIT_BINARY {
        Some(Architecture::X86)
    } else if binary_type == SCS_64BIT_BINARY {
        Some(Architecture::X64)
    } else {
        None
    }
}

/// Architecture probed by the Outlook qualifier at position `i` of the Outlook search: each
/// component category is tried with `outlook.x64.exe`, then `outlook.exe`.
pub open spec fn outlook_probe_architecture(i: int) -> Architecture {
    if i % 2 == 0 {
        Architecture::X64
    } else {
        Architecture::X86
    }
}

/// Position of the first Outlook probe that found a DLL path.
pub open spec fn first_outlook_hit(probes: Seq<Option<String>>) -> Option<int> {
    if exists|i: int| 0 <= i < probes.len() && (#[trigger] probes[i]) is Some {
        Some(
            choose|i: int|
                0 <= i < probes.len() && probes[i] is Some && forall|j: int|
                    0 <= j < i ==> (#[trigger] probes[j]) is None,
        )
    } else {
        None
    }
}

/// A fallback probe that found both a DLL path and an executable of a supported architecture.
pub open spec fn office_hit(probe: Option<(u32, String)>) -> bool {
    probe is Some && architecture_of(probe->Some_0.0) is Some
}

/// Position of the first usable fallback probe.
pub open spec fn first_office_hit(probes: Seq<Option<(u32, String)>>) -> Option<int> {
    if exists|i: int| 0 <= i < probes.len() && office_hit(#[trigger] probes[i]) {
        Some(
            choose|i: int|
                0 <= i < probes.len() && office_hit(probes[i]) && forall|j: int|
                    0 <= j < i ==> !office_hit(#[trigger] probes[j]),
        )
    } else {
        None
    }
}

/// What a caller can know of an installation state: architecture, DLL path and whether it is
/// an Outlook installation, or nothing.
pub open spec fn installation_view(s: InstallationState) -> Option<(Architecture, Seq<char>, bool)> {
    match s {
        InstallationState::Installed { architecture, dll_path, is_outlook_installed } => Some(
            (architecture, dll_path@, is_outlook_installed),
        ),
        InstallationState::NotInstalled => None,
    }
}

/// Pick the installation to use. `outlook_probes` holds, for each component category in
/// order, the DLL path found for `outlook.x64.exe` and then for `outlook.exe`. `fallback_probes`
/// holds, for each category and each other Office application in order, the binary type of its
/// executable and the DLL path found. The first Outlook hit wins; failing that, the first
/// fallback whose executable has a supported architecture.
pub fn select_installation(
    outlook_probes: &Vec<Option<String>>,
    fallback_probes: &Vec<Option<(u32, String)>>,
) -> (r: InstallationState)
    ensures
        installation_view(r) == match first_outlook_hit(outlook_probes@) {
            Some(i) => Some(
                (outlook_probe_architecture(i), outlook_probes@[i]->Some_0@, true),
            ),
            None => match first_office_hit(fallback_probes@) {
                Some(j) => Some(
                    (
                        architecture_of(fallback_probes@[j]->Some_0.0)->Some_0,
                        fallback_probes@[j]->Some_0.1@,
                        false,
                    ),
                ),
                None => None,
            },
        },
{
    let mut i: usize = 0;
    while i < outlook_probes.len()
        invariant
            i <= outlook_probes@.len(),
            forall|j: int| 0 <= j < i ==> (#[trigger] outlook_probes@[j]) is None,
        decreases outlook_probes@.len() - i,
    {
        match &outlook_probes[i] {
            Some(path) => {
                let architecture = if i % 2 == 0 {
                    Architecture::X64
                } else {
                    Architecture::X86
                };
                proof {
                    let k = first_outlook_hit(outlook_probes@)->Some_0;
                    assert(outlook_probes@[i as int] is Some);
                    if k < i {
                        assert(outlook_probes@[k] is None);
                    }
                    if k > i {
                        assert(outlook_probes@[i as int] is None);
                    }
                }
                return InstallationState::Installed {
                    architecture,
                    dll_path: path.clone(),
                    is_outlook_installed: true,
                };
            },
            None => {},
        }
        i = i + 1;
    }
    assert(first_outlook_hit(outlook_probes@) is None);
    let mut j: usize = 0;
    while j < fallback_probes.len()
        invariant
            j <= fallback_probes@.len(),
            first_outlook_hit(outlook_probes@) is None,
            forall|k: int| 0 <= k < j ==> !office_hit(#[trigger] fallback_probes@[k]),
        decreases fallback_probes@.len() - j,
    {
        match &fallback_probes[j] {
            Some((binary_type, path)) => {
                match binary_architecture(*binary_type) {
                    Some(architecture) => {
                        proof {
                            assert(office_hit(fallback_probes@[j as int]));
                            let k = first_office_hit(fallback_probes@)->Some_0;
                            if k < j {
                                assert(!office_hit(fallback_probes@[k]));
                            }
                            if k > j {
                                assert(!office_hit(fallback_probes@[j as int]));
                            }
                        }
                        return InstallationState::Installed {
                            architecture,
                            dll_path: path.clone(),
                            is_outlook_installed: false,
                        };
                    },
                    None => {},
                }
            },
            None => {},
        }
        j = j + 1;
    }
    InstallationState::NotInstalled
}

} // verus!
