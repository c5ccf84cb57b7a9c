//! Setting up a directory for tracking.

use vstd::prelude::*;

verus! {

/// What remains to be done to set a directory up.
#[derive(Clone, Copy, Debug, PartialEq, Eq, Structural)]
pub enum InitStep {
    /// The tracking directory exists: nothing is created.
    AlreadyInitialized,
    /// The tracking directory is to be created, and an empty store in it.
    Create,
}

/// Decides what to do about a tracking directory that is `present` or not:
/// one that is there is left alone.
pub fn run(present: bool) -> (step: InitStep)
    ensures
        step == if present {
            InitStep::AlreadyInitialized
        } else {
            InitStep::Create
        },
{
    if present {
        InitStep::AlreadyInitialized
    } else {
        InitStep::Create
    }
}

} // verus!
