use vstd::prelude::*;

verus! {

/// Why an unrecoverable startup failure happened.
#[derive(Debug, Clone, Copy, PartialEq, Eq, Structural)]
pub enum FatalCause {
    /// The bundled server entry point could not be resolved to a path.
    ResourceUnresolved,
    /// The sidecar program could not be found or started.
    SpawnFailed,
}

/// Failures that abort application launch; the window is never shown.
#[derive(Debug, Clone, Copy, PartialEq, Eq, Structural)]
pub enum StartupError {
    StartupFatal(FatalCause),
    /// The target operating system cannot hide the sidecar's console and the
    /// platform policy demands it.
    UnsupportedPlatform,
}

/// Failures on the shutdown path; they are logged and never stop the sequence.
#[derive(Debug, Clone, Copy, PartialEq, Eq, Structural)]
pub enum ShutdownError {
    /// Writing the notice to the child's input stream failed.
    ShutdownNoticeFailed,
    /// Asking the operating system to kill the child failed.
    ShutdownKillFailed,
}

} // verus!
