use vstd::prelude::*;

use crate::error::StartupError;

verus! {

/// The operating system the application was built for.
#[derive(Debug, Clone, Copy, PartialEq, Eq, Structural)]
pub enum TargetOs {
    Windows,
    MacOs,
    Linux,
    Other,
}

/// What to do on a system that has no way to hide the sidecar's console.
#[derive(Debug, Clone, Copy, PartialEq, Eq, Structural)]
pub enum PlatformPolicy {
    /// Spawn without hiding: no console appears there anyway.
    Degrade,
    /// Refuse to start unless the console can be hidden.
    RequireHiding,
}

/// The Windows process-creation flag that starts a process without a console.
pub const CREATE_NO_WINDOW: u32 = 0x0800_0000;

/// How the sidecar process is to be created.
#[derive(Debug, Clone, Copy, PartialEq, Eq, Structural)]
pub struct SpawnFlags {
    /// Whether the console window of the child is suppressed.
    pub hide_console: bool,
    /// Raw process-creation flags handed to the operating system.
    pub creation_flags: u32,
}

/// The flags that hide the console, where the system offers them.
pub open spec fn hiding_flags(os: TargetOs) -> Option<SpawnFlags> {
    match os {
        TargetOs::Windows => Some(SpawnFlags { hide_console: true, creation_flags: CREATE_NO_WINDOW }),
        _ => None,
    }
}

/// The spawn flags chosen for `os` under `policy`.
pub open spec fn flags_for(os: TargetOs, policy: PlatformPolicy) -> Result<SpawnFlags, StartupError> {
    match hiding_flags(os) {
        Some(f) => Ok(f),
        None => match policy {
            PlatformPolicy::Degrade => Ok(SpawnFlags { hide_console: false, creation_flags: 0 }),
            PlatformPolicy::RequireHiding => Err(StartupError::UnsupportedPlatform),
        },
    }
}

/// Maps the target system to the options the sidecar is spawned with.
///
/// On Windows the console is suppressed. Elsewhere no flag is needed: under
/// `Degrade` the process is spawned plainly, under `RequireHiding` startup
/// fails with `UnsupportedPlatform`.
pub fn spawn_flags(os: TargetOs, policy: PlatformPolicy) -> (r: Result<SpawnFlags, StartupError>)
    ensures
        r == flags_for(os, policy),
        os == TargetOs::Windows ==> r == Ok::<SpawnFlags, StartupError>(
            SpawnFlags { hide_console: true, creation_flags: CREATE_NO_WINDOW },
        ),
        r is Err <==> (os != TargetOs::Windows && policy == PlatformPolicy::RequireHiding),
{
    match os {
        TargetOs::Windows => Ok(SpawnFlags { hide_console: true, creation_flags: CREATE_NO_WINDOW }),
        _ => match policy {
            PlatformPolicy::Degrade => Ok(SpawnFlags { hide_console: false, creation_flags: 0 }),
            PlatformPolicy::RequireHiding => Err(StartupError::UnsupportedPlatform),
        },
    }
}

} // verus!
