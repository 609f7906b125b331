//! Error types for toolchain analysis, version verification and driver
//! interception. Every variant carries the data needed to diagnose the
//! failure without re-running the operation.

use vstd::prelude::*;
use crate::driver::Capability;

verus! {

/// Which subordinate tool a toolchain query or resolution was about.
#[derive(Clone, Copy, PartialEq, Eq, Structural, Debug)]
pub enum ToolRole {
    Assembler,
    Linker,
    LinkHelper,
}

/// A failure of the toolchain itself: a query to the compiler front-end,
/// a path resolution, the probe build, the version comparison, or the
/// final relocatable link.
#[derive(Debug)]
pub enum ToolchainFailure {
    /// The compiler front-end exited non-zero when asked for the program
    /// it would use in the given role; its captured stderr is kept.
    Query { role: ToolRole, compiler: String, stderr: String },
    /// A program name returned by the compiler front-end could not be
    /// resolved to an executable on the search path.
    Resolve { name: String, detail: String },
    /// The probe compilation used for version verification exited non-zero.
    Probe { exit_code: i32, stderr: String },
    /// The producer strings of the reference binary and the probe object
    /// do not denote the same toolchain release; both full strings are
    /// kept for diagnostics.
    VersionMismatch { debug_info: String, probe: String },
    /// The relocatable link of the captured objects exited non-zero.
    Link { exit_code: i32, stderr: String },
}

/// A failure while talking to the kernel interception driver.
#[derive(Debug)]
pub enum DriverFailure {
    /// The interception device could not be opened.
    Open { device: String },
    /// A register request was refused; `rollback_complete` tells whether
    /// every compensating unregister issued afterwards succeeded, so an
    /// operator knows whether manual cleanup is required.
    Register { capability: Capability, path: String, status: i32, rollback_complete: bool },
    /// An unregister request was refused; later unregistrations were not
    /// attempted.
    Unregister { capability: Capability, path: String, status: i32 },
}

/// The two error kinds of this subsystem.
#[derive(Debug)]
pub enum Error {
    /// Toolchain process failures, unresolved tools, version mismatch.
    Compiler(ToolchainFailure),
    /// Interception device open or ioctl failures.
    Mod(DriverFailure),
}

} // verus!
