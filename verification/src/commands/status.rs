//! Closing and reopening issues.

use crate::commands::CommandError;
use crate::store::{IssueStatus, Store};
use vstd::prelude::*;

verus! {

/// Closes issue `id`. Fails with `NotFound`, changing nothing, when the store
/// has no such issue.
pub fn close(store: &mut Store, id: i64) -> (outcome: Result<(), CommandError>)
    requires
        old(store).wf(),
    ensures
        final(store).wf(),
        final(store)@ == old(store)@.set_status(id, IssueStatus::Closed),
        old(store)@.has_issue(id) ==> outcome is Ok,
        !old(store)@.has_issue(id) ==> outcome == Err::<(), CommandError>(
            CommandError::NotFound(id),
        ) && final(store)@ == old(store)@,
{
    if store.close_issue(id) {
        Ok(())
    } else {
        Err(CommandError::NotFound(id))
    }
}

/// Opens issue `id` again. Fails with `NotFound`, changing nothing, when the
/// store has no such issue.
pub fn reopen(store: &mut Store, id: i64) -> (outcome: Result<(), CommandError>)
    requires
        old(store).wf(),
    ensures
        final(store).wf(),
        final(store)@ == old(store)@.set_status(id, IssueStatus::Open),
        old(store)@.has_issue(id) ==> outcome is Ok,
        !old(store)@.has_issue(id) ==> outcome == Err::<(), CommandError>(
            CommandError::NotFound(id),
        ) && final(store)@ == old(store)@,
{
    if store.reopen_issue(id) {
        Ok(())
    } else {
        Err(CommandError::NotFound(id))
    }
}

} // verus!
