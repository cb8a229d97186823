//! The error taxonomy of the pipeline core. Rendering these for a user
//! is left to the caller; the variants carry the data that message needs.

use vstd::prelude::*;

verus! {

/// Why a pipeline operation failed.
#[derive(Clone, Copy, Debug, PartialEq, Eq, Structural)]
pub enum Error {
    /// A dispatched command ran and exited unsuccessfully.
    CommandFailed { code: i32 },
    /// A dispatched command could not be started at all.
    SpawnFailed,
    /// Neither the native packaging build helper nor its packaged form is
    /// available.
    BuilderNotFound,
    /// The manifest's application identifier is not a valid reverse-DNS
    /// style name.
    InvalidAppId,
    /// Another pipeline instance owns the project; its process group is
    /// still alive.
    LockContention { pgid: u32 },
}

} // verus!
