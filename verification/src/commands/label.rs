//! Labelling issues.

use crate::commands::CommandError;
use crate::store::Store;
use vstd::prelude::*;

verus! {

/// Puts `label` on issue `issue_id` and tells whether it is new to the
/// issue: an issue that carries the label already stays as it is. Fails with
/// `NotFound`, changing nothing, when the store has no such issue.
pub fn add(store: &mut Store, issue_id: i64, label: &str) -> (outcome: Result<bool, CommandError>)
    requires
        old(store).wf(),
    ensures
        final(store).wf(),
        final(store)@ == old(store)@.add_label(issue_id, label@),
        outcome == if old(store)@.has_issue(issue_id) {
            Ok::<bool, CommandError>(!old(store)@.has_label(issue_id, label@))
        } else {
            Err::<bool, CommandError>(CommandError::NotFound(issue_id))
        },
{
    match store.add_label(issue_id, label) {
        Some(added) => Ok(added),
        None => Err(CommandError::NotFound(issue_id)),
    }
}

/// Takes `label` off issue `issue_id` and tells whether the issue carried
/// it. Fails with `NotFound`, changing nothing, when the store has no such
/// issue.
pub fn remove(store: &mut Store, issue_id: i64, label: &str) -> (outcome: Result<
    bool,
    CommandError,
>)
    requires
        old(store).wf(),
    ensures
        final(store).wf(),
        final(store)@ == old(store)@.remove_label(issue_id, label@),
        outcome == if old(store)@.has_issue(issue_id) {
            Ok::<bool, CommandError>(old(store)@.has_label(issue_id, label@))
        } else {
            Err::<bool, CommandError>(CommandError::NotFound(issue_id))
        },
{
    match store.remove_label(issue_id, label) {
        Some(removed) => Ok(removed),
        None => Err(CommandError::NotFound(issue_id)),
    }
}

} // verus!
