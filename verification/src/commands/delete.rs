//! Deleting an issue, after confirmation unless it is forced.

use crate::commands::CommandError;
use crate::store::Store;
use crate::text::{chars_of, trim_bounds, trimmed};
use vstd::prelude::*;

verus! {

/// How far a deletion came.
#[derive(Debug, PartialEq, Eq)]
pub enum DeleteStep {
    /// The issue is gone.
    Deleted,
    /// Nothing was deleted yet: the user is to confirm the deletion of the
    /// issue with this title.
    Confirm { title: String },
    /// The user declined: nothing was deleted.
    Cancelled,
}

/// The mathematical value of a [`DeleteStep`].
pub enum DeleteStepView {
    Deleted,
    Confirm { title: Seq<char> },
    Cancelled,
}

impl View for DeleteStep {
    type V = DeleteStepView;

    open spec fn view(&self) -> DeleteStepView {
        match self {
            DeleteStep::Deleted => DeleteStepView::Deleted,
            DeleteStep::Confirm { title } => DeleteStepView::Confirm { title: title@ },
            DeleteStep::Cancelled => DeleteStepView::Cancelled,
        }
    }
}

/// Whether `answer` confirms: it is `y` or `Y`, with any white space around
/// it.
pub open spec fn is_yes(answer: Seq<char>) -> bool {
    trimmed(answer) == seq!['y'] || trimmed(answer) == seq!['Y']
}

/// Tells whether `answer` confirms a deletion.
pub fn confirms(answer: &str) -> (yes: bool)
    ensures
        yes == is_yes(answer@),
{
    let chars = chars_of(answer);
    let (lo, hi) = trim_bounds(&chars);
    let yes = hi - lo == 1 && (chars[lo] == 'y' || chars[lo] == 'Y');
    proof {
        let text = chars@.subrange(lo as int, hi as int);
        if yes {
            assert(text =~= seq![chars@[lo as int]]);
        } else if text.len() == 1 {
            assert(text[0] == chars@[lo as int]);
        }
    }
    yes
}

/// Deletes issue `id` if `force` is set; otherwise deletes nothing and asks
/// for confirmation, naming the title of the issue. Fails with `NotFound`
/// when the store has no such issue.
pub fn run(store: &mut Store, id: i64, force: bool) -> (outcome: Result<DeleteStep, CommandError>)
    requires
        old(store).wf(),
    ensures
        final(store).wf(),
        match old(store)@.get_issue(id) {
            None => outcome == Err::<DeleteStep, CommandError>(CommandError::NotFound(id))
                && final(store)@ == old(store)@,
            Some(issue) => if force {
                &&& outcome matches Ok(step)
                &&& step@ == DeleteStepView::Deleted
                &&& final(store)@ == old(store)@.delete_issue(id)
            } else {
                &&& outcome matches Ok(step)
                &&& step@ == DeleteStepView::Confirm { title: issue.title }
                &&& final(store)@ == old(store)@
            },
        },
{
    let title = match store.get_issue(id) {
        Some(issue) => issue.title.clone(),
        None => {
            return Err(CommandError::NotFound(id));
        },
    };
    if force {
        store.delete_issue(id);
        Ok(DeleteStep::Deleted)
    } else {
        Ok(DeleteStep::Confirm { title })
    }
}

/// Takes the user's `answer` to the request for confirmation: deletes issue
/// `id` if it is yes, and nothing if it is not. Fails with `NotFound` when
/// the answer is yes and the store has no such issue.
pub fn confirm(store: &mut Store, id: i64, answer: &str) -> (outcome: Result<
    DeleteStep,
    CommandError,
>)
    requires
        old(store).wf(),
    ensures
        final(store).wf(),
        if !is_yes(answer@) {
            &&& outcome matches Ok(step)
            &&& step@ == DeleteStepView::Cancelled
            &&& final(store)@ == old(store)@
        } else if old(store)@.has_issue(id) {
            &&& outcome matches Ok(step)
            &&& step@ == DeleteStepView::Deleted
            &&& final(store)@ == old(store)@.delete_issue(id)
        } else {
            &&& outcome == Err::<DeleteStep, CommandError>(CommandError::NotFound(id))
            &&& final(store)@ == old(store)@
        },
{
    if !confirms(answer) {
        return Ok(DeleteStep::Cancelled);
    }
    if store.delete_issue(id) {
        Ok(DeleteStep::Deleted)
    } else {
        Err(CommandError::NotFound(id))
    }
}

} // verus!
