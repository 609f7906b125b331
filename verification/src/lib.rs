//! Build-time toolchain interception and verification for a live-patching
//! build: discovery of the assembler/linker/link-helper behind a compiler
//! front-end, reversible registration of those binaries with a kernel
//! interception driver, provenance comparison of debug-info producer
//! strings, and relocatable re-linking of captured objects.

pub mod driver;
pub mod error;
pub mod package;
pub mod toolchain;
pub mod version;

use vstd::prelude::*;

verus! {

} // verus!
