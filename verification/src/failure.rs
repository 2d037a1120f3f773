//! The ways in which the launcher or one of its commands gives up.

use vstd::prelude::*;

verus! {

/// Why no answer is given. Neither kind is recovered from: the host program
/// ends the process, or the one call, on it.
#[derive(Debug, Clone, Copy, PartialEq, Eq, Structural)]
pub enum Failure {
    /// An input path was named at launch and nothing exists there.
    PreconditionFailed,
    /// The operating system could not answer what a command asked of it.
    QueryFailed,
}

} // verus!
