//! Changing the title, the description or the priority of an issue.

use crate::commands::CommandError;
use crate::store::{priority_named, Priority, Store, StoreView};
use vstd::prelude::*;

verus! {

/// The store after `run`: unchanged unless a field is given, the priority,
/// if given, is valid, and the issue exists.
pub open spec fn after_update(
    store: StoreView,
    id: i64,
    title: Option<Seq<char>>,
    description: Option<Seq<char>>,
    priority: Option<Seq<char>>,
) -> StoreView {
    if update_error(store, id, title, description, priority) is Some {
        store
    } else {
        store.update_issue(
            id,
            title,
            description,
            match priority {
                Some(name) => priority_named(name),
                None => None,
            },
        )
    }
}

/// Why `run` refuses, if it does. An update without a field is refused
/// first, then a priority that is none, then an issue that does not exist.
pub open spec fn update_error(
    store: StoreView,
    id: i64,
    title: Option<Seq<char>>,
    description: Option<Seq<char>>,
    priority: Option<Seq<char>>,
) -> Option<CommandError> {
    if title is None && description is None && priority is None {
        Some(CommandError::NothingToUpdate)
    } else if priority matches Some(name) && priority_named(name) is None {
        Some(CommandError::InvalidPriority)
    } else if !store.has_issue(id) {
        Some(CommandError::NotFound(id))
    } else {
        None
    }
}

/// Replaces the fields of issue `id` that are given. Bad input is refused
/// before anything changes.
pub fn run(
    store: &mut Store,
    id: i64,
    title: Option<&str>,
    description: Option<&str>,
    priority: Option<&str>,
) -> (outcome: Result<(), CommandError>)
    requires
        old(store).wf(),
    ensures
        final(store).wf(),
        final(store)@ == after_update(
            old(store)@,
            id,
            title.deep_view(),
            description.deep_view(),
            priority.deep_view(),
        ),
        match update_error(
            old(store)@,
            id,
            title.deep_view(),
            description.deep_view(),
            priority.deep_view(),
        ) {
            Some(e) => outcome == Err::<(), CommandError>(e),
            None => outcome is Ok,
        },
{
    if title.is_none() && description.is_none() && priority.is_none() {
        return Err(CommandError::NothingToUpdate);
    }
    let parsed = match priority {
        Some(name) => match Priority::parse(name) {
            Some(p) => Some(p),
            None => {
                return Err(CommandError::InvalidPriority);
            },
        },
        None => None,
    };
    if store.update_issue(id, title, description, parsed) {
        Ok(())
    } else {
        Err(CommandError::NotFound(id))
    }
}

} // verus!
