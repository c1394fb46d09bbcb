use vstd::prelude::*;

verus! {

/// Why a command on the configurations failed.
#[derive(Debug, Clone, Copy, PartialEq, Eq, Structural)]
pub enum VexError {
    /// No configuration is stored under the name.
    NotFound,
    /// A configuration is stored under the name, but it cannot be read as one.
    Corrupt,
    /// The executable could not be started.
    SpawnFailed,
    /// The executable ran and exited with this code (-1 when it had none).
    ChildNonZeroExit(i32),
}

} // verus!
