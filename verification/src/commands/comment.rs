//! Commenting on an issue.

use crate::commands::CommandError;
use crate::store::Store;
use vstd::prelude::*;

verus! {

/// Adds `content` to the comments of issue `issue_id`. Fails with `NotFound`,
/// changing nothing, when the store has no such issue.
pub fn run(store: &mut Store, issue_id: i64, content: &str) -> (outcome: Result<(), CommandError>)
    requires
        old(store).wf(),
    ensures
        final(store).wf(),
        final(store)@ == old(store)@.add_comment(issue_id, content@),
        old(store)@.has_issue(issue_id) ==> outcome is Ok,
        !old(store)@.has_issue(issue_id) ==> outcome == Err::<(), CommandError>(
            CommandError::NotFound(issue_id),
        ) && final(store)@ == old(store)@,
{
    if store.add_comment(issue_id, content) {
        Ok(())
    } else {
        Err(CommandError::NotFound(issue_id))
    }
}

} // verus!
