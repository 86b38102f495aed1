//! The ways in which an operation can fail.
use vstd::prelude::*;

verus! {

/// Why an operation was not carried out, or was carried out only in part.
#[derive(Clone, Copy, Debug, PartialEq, Eq, Structural)]
pub enum ScudError {
    /// No marker directory between the starting directory and the root.
    NoBackendDetected,
    /// The backend's binary is missing or could not be started.
    SpawnError,
    /// The operation is not implemented for the resolved backend.
    UnsupportedCombination,
    /// A commit was asked for while nothing is staged.
    NoStagedChanges,
    /// The subject does not fit into what is left of the first line.
    InvalidSubjectLength,
    /// The branch-tracking line has none of the known shapes.
    MalformedStatusLine,
}

} // verus!
