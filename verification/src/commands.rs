//! The operations behind the command-line interface, each on a store held in
//! memory.

pub mod comment;
pub mod delete;
pub mod init;
pub mod label;
pub mod list;
pub mod session;
pub mod status;
pub mod update;

use vstd::prelude::*;

verus! {

/// Why a command on issues was refused.
#[derive(Clone, Copy, Debug, PartialEq, Eq, Structural)]
pub enum CommandError {
    /// The store has no issue with this id.
    NotFound(i64),
    /// An update names no field to change.
    NothingToUpdate,
    /// A priority is none of `low`, `medium`, `high`, `critical`.
    InvalidPriority,
}

} // verus!
