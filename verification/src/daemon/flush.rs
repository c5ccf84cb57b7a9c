//! The flush loop: what the daemon process does for as long as it lives.
//! Every thirty seconds it reads the active session from the store and
//! rewrites the snapshot file. A cycle that fails is noted and the loop goes
//! on.
//!
//! Like the supervisor, the loop is a machine: the caller sleeps, reads and
//! writes as each [`FlushAction`] says and hands back a [`FlushEvent`].

use crate::daemon::snapshot::{snapshot, snapshot_text, SnapshotError};
use crate::store::{Session, SessionView};
use vstd::prelude::*;

verus! {

/// The seconds between two flush cycles.
pub const FLUSH_INTERVAL_SECS: u64 = 30;

/// What a cycle leaves to be logged.
#[derive(Clone, Copy, Debug, PartialEq, Eq, Structural)]
pub enum FlushLog {
    /// The directory holds a store; the loop begins.
    Ready,
    /// No session is active: nothing was written, and nothing is logged.
    Idle,
    /// The store could not be read.
    StoreUnreadable,
    /// The snapshot could not be made.
    SnapshotFailed(SnapshotError),
    /// The snapshot file could not be written.
    WriteFailed,
    /// The snapshot file was written.
    Flushed,
    /// An event came that answers no pending action; the cycle was given up.
    OutOfTurn,
}

/// What the loop wants done next.
#[derive(Debug, PartialEq, Eq)]
pub enum FlushAction {
    /// Tell whether the directory holds a store.
    CheckStore,
    /// Log what the cycle left, then sleep.
    Sleep { seconds: u64, log: FlushLog },
    /// Open the store afresh and read the active session.
    ReadSession,
    /// Rewrite the snapshot file with this text.
    WriteSnapshot(String),
    /// Leave: the directory holds no store.
    Exit,
}

/// The mathematical value of a [`FlushAction`].
pub enum FlushActionView {
    CheckStore,
    Sleep { seconds: u64, log: FlushLog },
    ReadSession,
    WriteSnapshot(Seq<char>),
    Exit,
}

impl View for FlushAction {
    type V = FlushActionView;

    open spec fn view(&self) -> FlushActionView {
        match self {
            FlushAction::CheckStore => FlushActionView::CheckStore,
            FlushAction::Sleep { seconds, log } => FlushActionView::Sleep {
                seconds: *seconds,
                log: *log,
            },
            FlushAction::ReadSession => FlushActionView::ReadSession,
            FlushAction::WriteSnapshot(text) => FlushActionView::WriteSnapshot(text@),
            FlushAction::Exit => FlushActionView::Exit,
        }
    }
}

/// What came of an action.
#[derive(Debug, PartialEq, Eq)]
pub enum FlushEvent {
    /// Whether the directory holds a store.
    StoreChecked(bool),
    /// The sleep is over.
    Woke,
    /// The store could not be opened or read.
    StoreUnreadable,
    /// The active session of the store, if it has one.
    SessionRead(Option<Session>),
    /// Whether the snapshot file was written.
    Written(bool),
}

/// The mathematical value of a [`FlushEvent`].
pub enum FlushEventView {
    StoreChecked(bool),
    Woke,
    StoreUnreadable,
    SessionRead(Option<SessionView>),
    Written(bool),
}

impl View for FlushEvent {
    type V = FlushEventView;

    open spec fn view(&self) -> FlushEventView {
        match self {
            FlushEvent::StoreChecked(found) => FlushEventView::StoreChecked(*found),
            FlushEvent::Woke => FlushEventView::Woke,
            FlushEvent::StoreUnreadable => FlushEventView::StoreUnreadable,
            FlushEvent::SessionRead(session) => FlushEventView::SessionRead(
                match session {
                    Some(s) => Some(s@),
                    None => None,
                },
            ),
            FlushEvent::Written(done) => FlushEventView::Written(*done),
        }
    }
}

/// Where the loop stands.
#[derive(Clone, Copy, Debug, PartialEq, Eq, Structural)]
pub enum FlushLoop {
    /// Waiting to learn whether the directory holds a store.
    Validating,
    /// Asleep between two cycles.
    Sleeping,
    /// Waiting for the active session.
    Reading,
    /// Waiting for the snapshot file to be written.
    Writing,
    /// The loop has left: the directory holds no store.
    Stopped,
}

/// The sleep that ends a cycle.
pub open spec fn rest(log: FlushLog) -> (FlushLoop, FlushActionView) {
    (FlushLoop::Sleeping, FlushActionView::Sleep { seconds: FLUSH_INTERVAL_SECS, log })
}

/// The error that makes `snapshot` fail on `session`.
pub open spec fn snapshot_failure(session: SessionView) -> SnapshotError {
    if crate::daemon::snapshot::rfc3339_text(session.started_at) is None {
        SnapshotError::TimeOutOfRange
    } else {
        SnapshotError::NotPrinted
    }
}

impl FlushLoop {
    /// Whether the loop is past the check of the directory and has not left.
    pub open spec fn is_running(self) -> bool {
        self is Sleeping || self is Reading || self is Writing
    }

    /// The state after `event`, and the action to take then.
    ///
    /// Before the loop runs, only the check of the directory counts. Once it
    /// runs, an event that answers no pending action ends the cycle like a
    /// failure.
    pub open spec fn react(self, event: FlushEventView) -> (FlushLoop, FlushActionView) {
        match self {
            FlushLoop::Validating => match event {
                FlushEventView::StoreChecked(true) => rest(FlushLog::Ready),
                FlushEventView::StoreChecked(false) => (FlushLoop::Stopped, FlushActionView::Exit),
                _ => (FlushLoop::Validating, FlushActionView::CheckStore),
            },
            FlushLoop::Sleeping => match event {
                FlushEventView::Woke => (FlushLoop::Reading, FlushActionView::ReadSession),
                _ => rest(FlushLog::OutOfTurn),
            },
            FlushLoop::Reading => match event {
                FlushEventView::StoreUnreadable => rest(FlushLog::StoreUnreadable),
                FlushEventView::SessionRead(None) => rest(FlushLog::Idle),
                FlushEventView::SessionRead(Some(session)) => match snapshot_text(session) {
                    Some(text) => (FlushLoop::Writing, FlushActionView::WriteSnapshot(text)),
                    None => rest(FlushLog::SnapshotFailed(snapshot_failure(session))),
                },
                _ => rest(FlushLog::OutOfTurn),
            },
            FlushLoop::Writing => match event {
                FlushEventView::Written(true) => rest(FlushLog::Flushed),
                FlushEventView::Written(false) => rest(FlushLog::WriteFailed),
                _ => rest(FlushLog::OutOfTurn),
            },
            FlushLoop::Stopped => (FlushLoop::Stopped, FlushActionView::Exit),
        }
    }

    /// The state after a sequence of events, taken in order.
    pub open spec fn react_all(self, events: Seq<FlushEventView>) -> FlushLoop
        decreases events.len(),
    {
        if events.len() == 0 {
            self
        } else {
            self.react_all(events.drop_last()).react(events.last()).0
        }
    }

    /// Takes what came of the pending action and names the next one.
    pub fn step(self, event: &FlushEvent) -> (next: (FlushLoop, FlushAction))
        ensures
            (next.0, next.1@) == self.react(event@),
    {
        match self {
            FlushLoop::Validating => match event {
                FlushEvent::StoreChecked(true) => sleep(FlushLog::Ready),
                FlushEvent::StoreChecked(false) => (FlushLoop::Stopped, FlushAction::Exit),
                _ => (FlushLoop::Validating, FlushAction::CheckStore),
            },
            FlushLoop::Sleeping => match event {
                FlushEvent::Woke => (FlushLoop::Reading, FlushAction::ReadSession),
                _ => sleep(FlushLog::OutOfTurn),
            },
            FlushLoop::Reading => match event {
                FlushEvent::StoreUnreadable => sleep(FlushLog::StoreUnreadable),
                FlushEvent::SessionRead(None) => sleep(FlushLog::Idle),
                FlushEvent::SessionRead(Some(session)) => match snapshot(session) {
                    Ok(text) => (FlushLoop::Writing, FlushAction::WriteSnapshot(text)),
                    Err(e) => sleep(FlushLog::SnapshotFailed(e)),
                },
                _ => sleep(FlushLog::OutOfTurn),
            },
            FlushLoop::Writing => match event {
                FlushEvent::Written(true) => sleep(FlushLog::Flushed),
                FlushEvent::Written(false) => sleep(FlushLog::WriteFailed),
                _ => sleep(FlushLog::OutOfTurn),
            },
            FlushLoop::Stopped => (FlushLoop::Stopped, FlushAction::Exit),
        }
    }
}

/// Ends a cycle: log, then sleep for the flush interval.
fn sleep(log: FlushLog) -> (next: (FlushLoop, FlushAction))
    ensures
        (next.0, next.1@) == rest(log),
{
    (FlushLoop::Sleeping, FlushAction::Sleep { seconds: FLUSH_INTERVAL_SECS, log })
}

/// Begins the flush loop: first the directory is checked for a store, and
/// the loop leaves at once if it holds none.
pub fn run_daemon() -> (begun: (FlushLoop, FlushAction))
    ensures
        begun.0 == FlushLoop::Validating,
        begun.1@ == FlushActionView::CheckStore,
{
    (FlushLoop::Validating, FlushAction::CheckStore)
}

/// The loop runs only in a directory that holds a store: without one it
/// leaves, and nothing brings it back.
pub proof fn lemma_flush_loop_needs_store(event: FlushEventView)
    ensures
        FlushLoop::Validating.react(FlushEventView::StoreChecked(false)) == (
            FlushLoop::Stopped,
            FlushActionView::Exit,
        ),
        FlushLoop::Validating.react(FlushEventView::StoreChecked(true)).0 == FlushLoop::Sleeping,
        FlushLoop::Stopped.react(event) == (FlushLoop::Stopped, FlushActionView::Exit),
{
}

/// Once the loop runs, no event ends it: a cycle that fails is followed by
/// the next sleep.
pub proof fn lemma_flush_loop_never_stops(state: FlushLoop, events: Seq<FlushEventView>)
    requires
        state.is_running(),
    ensures
        state.react_all(events).is_running(),
    decreases events.len(),
{
    if events.len() > 0 {
        lemma_flush_loop_never_stops(state, events.drop_last());
    }
}

/// Every sleep lasts the flush interval, and the file is written only in
/// answer to a session that was read, with the snapshot of that session.
pub proof fn lemma_flush_actions(state: FlushLoop, event: FlushEventView)
    ensures
        state.react(event).1 matches FlushActionView::Sleep { seconds, .. } ==> seconds
            == FLUSH_INTERVAL_SECS,
        state.react(event).1 matches FlushActionView::WriteSnapshot(text) ==> {
            &&& state == FlushLoop::Reading
            &&& event matches FlushEventView::SessionRead(Some(session))
            &&& snapshot_text(session) == Some(text)
            &&& state.react(event).0 == FlushLoop::Writing
        },
        state == FlushLoop::Writing ==> state.react(event).0 == FlushLoop::Sleeping,
{
}

/// While no session is active, a cycle writes nothing and logs nothing.
pub proof fn lemma_idle_cycle_is_silent()
    ensures
        FlushLoop::Reading.react(FlushEventView::SessionRead(None)) == rest(FlushLog::Idle),
{
}

} // verus!
