//! The session manager: at most one work session is active at a time, and
//! the notes left at its end reach whoever starts the next one.

use crate::store::{lemma_single_active_session, SessionView, Store, StoreView};
use vstd::prelude::*;

verus! {

/// Why a session operation was refused.
#[derive(Clone, Copy, Debug, PartialEq, Eq, Structural)]
pub enum SessionError {
    /// No session is active.
    NoActiveSession,
    /// The store has no issue with this id.
    IssueNotFound(i64),
    /// The store has no session id left to give.
    StoreFull,
}

/// What the session that ended last leaves for the next one.
#[derive(Debug, PartialEq, Eq)]
pub struct Handoff {
    /// When that session ended, in seconds since the Unix epoch.
    pub ended_at: Option<i64>,
    /// Its notes, if it left any text.
    pub notes: Option<String>,
}

/// The mathematical value of a [`Handoff`].
pub struct HandoffView {
    pub ended_at: Option<i64>,
    pub notes: Option<Seq<char>>,
}

impl View for Handoff {
    type V = HandoffView;

    open spec fn view(&self) -> HandoffView {
        HandoffView { ended_at: self.ended_at, notes: self.notes.deep_view() }
    }
}

/// The value of an optional handoff.
pub open spec fn handoff_view(handoff: Option<Handoff>) -> Option<HandoffView> {
    match handoff {
        Some(h) => Some(h@),
        None => None,
    }
}

/// What `start` found or did.
#[derive(Debug, PartialEq, Eq)]
pub enum StartOutcome {
    /// A session was active already; nothing was created.
    AlreadyActive { id: i64, started_at: i64 },
    /// A session was created.
    Started { id: i64, previous: Option<Handoff> },
}

/// What `end` did.
#[derive(Clone, Copy, Debug, PartialEq, Eq, Structural)]
pub struct Ended {
    /// The session that was ended.
    pub id: i64,
    /// Whether notes were left for the next session.
    pub notes_saved: bool,
}

/// The issue that `work` turned the session to.
#[derive(Debug, PartialEq, Eq)]
pub struct NowWorking {
    pub id: i64,
    pub title: String,
}

/// What the active session works on.
#[derive(Debug, PartialEq, Eq)]
pub enum WorkingOn {
    /// No issue was set.
    Nothing,
    /// The issue that was set.
    Issue { id: i64, title: String },
    /// An issue was set, and the store no longer has it.
    Missing { id: i64 },
}

/// The mathematical value of a [`WorkingOn`].
pub enum WorkingOnView {
    Nothing,
    Issue { id: i64, title: Seq<char> },
    Missing { id: i64 },
}

impl View for WorkingOn {
    type V = WorkingOnView;

    open spec fn view(&self) -> WorkingOnView {
        match self {
            WorkingOn::Nothing => WorkingOnView::Nothing,
            WorkingOn::Issue { id, title } => WorkingOnView::Issue { id: *id, title: title@ },
            WorkingOn::Missing { id } => WorkingOnView::Missing { id: *id },
        }
    }
}

/// What `status` reports.
#[derive(Debug, PartialEq, Eq)]
pub enum SessionStatus {
    /// No session is active.
    Inactive,
    /// The active session.
    Active { id: i64, started_at: i64, elapsed_minutes: i64, working_on: WorkingOn },
}

/// The mathematical value of a [`SessionStatus`].
pub enum SessionStatusView {
    Inactive,
    Active { id: i64, started_at: i64, elapsed_minutes: int, working_on: WorkingOnView },
}

impl View for SessionStatus {
    type V = SessionStatusView;

    open spec fn view(&self) -> SessionStatusView {
        match self {
            SessionStatus::Inactive => SessionStatusView::Inactive,
            SessionStatus::Active { id, started_at, elapsed_minutes, working_on } => {
                SessionStatusView::Active {
                    id: *id,
                    started_at: *started_at,
                    elapsed_minutes: *elapsed_minutes as int,
                    working_on: working_on@,
                }
            },
        }
    }
}

/// The whole minutes from `started_at` to `now`, both in seconds, rounded
/// towards zero.
pub open spec fn minutes_between(started_at: i64, now: i64) -> int {
    let seconds = now - started_at;
    if seconds >= 0 {
        seconds / 60
    } else {
        -((-seconds) / 60)
    }
}

/// What a starting session is handed from the one that ended last: its end
/// time, and its notes unless they are empty.
pub open spec fn handoff_of(store: StoreView) -> Option<HandoffView> {
    match store.last_session() {
        Some(last) => Some(
            HandoffView {
                ended_at: last.ended_at,
                notes: match last.handoff_notes {
                    Some(text) if text.len() > 0 => Some(text),
                    _ => None,
                },
            },
        ),
        None => None,
    }
}

/// The store after `start` at `now`.
pub open spec fn after_start(store: StoreView, now: i64) -> StoreView {
    store.start_session(now)
}

/// The store after `end` at `now`.
pub open spec fn after_end(store: StoreView, notes: Option<Seq<char>>, now: i64) -> StoreView {
    match store.current_session() {
        Some(current) => store.end_session(current.id, notes, now),
        None => store,
    }
}

/// The store after `work`.
pub open spec fn after_work(store: StoreView, issue_id: i64) -> StoreView {
    match store.current_session() {
        Some(current) if store.has_issue(issue_id) => store.set_session_issue(
            current.id,
            issue_id,
        ),
        _ => store,
    }
}

/// What the active session of `store` works on.
pub open spec fn working_on_of(store: StoreView, current: SessionView) -> WorkingOnView {
    match current.active_issue_id {
        None => WorkingOnView::Nothing,
        Some(issue_id) => match store.get_issue(issue_id) {
            Some(issue) => WorkingOnView::Issue { id: issue.id, title: issue.title },
            None => WorkingOnView::Missing { id: issue_id },
        },
    }
}

/// What `status` reports of `store` at `now`.
pub open spec fn status_of(store: StoreView, now: i64) -> SessionStatusView {
    match store.current_session() {
        None => SessionStatusView::Inactive,
        Some(current) => SessionStatusView::Active {
            id: current.id,
            started_at: current.started_at,
            elapsed_minutes: minutes_between(current.started_at, now),
            working_on: working_on_of(store, current),
        },
    }
}

/// Computes the whole minutes from `started_at` to `now`.
fn elapsed_minutes(started_at: i64, now: i64) -> (minutes: i64)
    ensures
        minutes == minutes_between(started_at, now),
{
    let seconds: i128 = now as i128 - started_at as i128;
    if seconds >= 0 {
        (seconds / 60) as i64
    } else {
        -(((-seconds) / 60) as i64)
    }
}

/// Starts a session at `now`, unless one is active: then nothing changes and
/// the active session's id and start time come back. A new session is handed
/// what the session that ended last left behind.
pub fn start(store: &mut Store, now: i64) -> (outcome: Result<StartOutcome, SessionError>)
    requires
        old(store).wf(),
    ensures
        final(store).wf(),
        final(store)@ == after_start(old(store)@, now),
        match outcome {
            Ok(StartOutcome::AlreadyActive { id, started_at }) => {
                &&& old(store)@.current_session() matches Some(current)
                &&& id == current.id
                &&& started_at == current.started_at
                &&& final(store)@ == old(store)@
            },
            Ok(StartOutcome::Started { id, previous }) => {
                &&& old(store)@.can_start_session()
                &&& id == old(store)@.next_session_id()
                &&& handoff_view(previous) == handoff_of(old(store)@)
                &&& final(store)@.current_session() == Some(SessionView::fresh(id, now))
            },
            Err(e) => {
                &&& e == SessionError::StoreFull
                &&& old(store)@.current_session() is None
                &&& old(store)@.next_session_id() > i64::MAX
                &&& final(store)@ == old(store)@
            },
        },
{
    match store.get_current_session() {
        Some(current) => {
            return Ok(StartOutcome::AlreadyActive { id: current.id, started_at: current.started_at });
        },
        None => {},
    }
    let previous = match store.get_last_session() {
        Some(last) => {
            let notes = match &last.handoff_notes {
                Some(text) => if text.as_str().is_empty() {
                    None
                } else {
                    Some(text.clone())
                },
                None => None,
            };
            Some(Handoff { ended_at: last.ended_at, notes })
        },
        None => None,
    };
    match store.start_session(now) {
        Some(id) => Ok(StartOutcome::Started { id, previous }),
        None => Err(SessionError::StoreFull),
    }
}

/// Ends the active session at `now`, leaving `notes` for the next one. Fails
/// with `NoActiveSession`, changing nothing, when no session is active.
pub fn end(store: &mut Store, notes: Option<&str>, now: i64) -> (outcome: Result<
    Ended,
    SessionError,
>)
    requires
        old(store).wf(),
    ensures
        final(store).wf(),
        final(store)@ == after_end(old(store)@, notes.deep_view(), now),
        match outcome {
            Ok(ended) => {
                &&& old(store)@.current_session() matches Some(current)
                &&& ended.id == current.id
                &&& ended.notes_saved == notes is Some
                &&& final(store)@ == old(store)@.with_newest(
                    current.ended(notes.deep_view(), now),
                )
            },
            Err(e) => {
                &&& e == SessionError::NoActiveSession
                &&& old(store)@.current_session() is None
                &&& final(store)@ == old(store)@
            },
        },
{
    let id = match store.get_current_session() {
        Some(current) => current.id,
        None => {
            return Err(SessionError::NoActiveSession);
        },
    };
    let owned = match notes {
        Some(text) => Some(text.to_owned()),
        None => None,
    };
    store.end_session(id, owned, now);
    Ok(Ended { id, notes_saved: notes.is_some() })
}

/// Reports the active session at `now`: its id, its start, the minutes it
/// has run, and the issue it works on. Reports `Inactive` when no session is
/// active.
pub fn status(store: &Store, now: i64) -> (report: SessionStatus)
    requires
        store.wf(),
    ensures
        report@ == status_of(store@, now),
{
    let current = match store.get_current_session() {
        Some(current) => current,
        None => {
            return SessionStatus::Inactive;
        },
    };
    let working_on = match current.active_issue_id {
        Some(issue_id) => match store.get_issue(issue_id) {
            Some(issue) => WorkingOn::Issue { id: issue.id, title: issue.title.clone() },
            None => WorkingOn::Missing { id: issue_id },
        },
        None => WorkingOn::Nothing,
    };
    SessionStatus::Active {
        id: current.id,
        started_at: current.started_at,
        elapsed_minutes: elapsed_minutes(current.started_at, now),
        working_on,
    }
}

/// Turns the active session to issue `issue_id`. Fails with
/// `NoActiveSession` when no session is active, else with `IssueNotFound`
/// when the store has no such issue; a failure changes nothing.
pub fn work(store: &mut Store, issue_id: i64) -> (outcome: Result<NowWorking, SessionError>)
    requires
        old(store).wf(),
    ensures
        final(store).wf(),
        final(store)@ == after_work(old(store)@, issue_id),
        match outcome {
            Ok(working) => {
                &&& old(store)@.current_session() matches Some(current)
                &&& old(store)@.get_issue(issue_id) matches Some(issue)
                &&& working.id == issue_id
                &&& working.title@ == issue.title
                &&& final(store)@ == old(store)@.with_newest(current.working_on(issue_id))
            },
            Err(e) => {
                &&& final(store)@ == old(store)@
                &&& if old(store)@.current_session() is None {
                    e == SessionError::NoActiveSession
                } else {
                    e == SessionError::IssueNotFound(issue_id) && !old(store)@.has_issue(issue_id)
                }
            },
        },
{
    let session_id = match store.get_current_session() {
        Some(current) => current.id,
        None => {
            return Err(SessionError::NoActiveSession);
        },
    };
    let working = match store.get_issue(issue_id) {
        Some(issue) => NowWorking { id: issue.id, title: issue.title.clone() },
        None => {
            return Err(SessionError::IssueNotFound(issue_id));
        },
    };
    store.set_session_issue(session_id, issue_id);
    Ok(working)
}

/// One call of the session manager, as the store sees it.
pub enum SessionCall {
    Start { now: i64 },
    End { notes: Option<Seq<char>>, now: i64 },
    Work { issue_id: i64 },
}

/// The store after one call.
pub open spec fn after_call(store: StoreView, call: SessionCall) -> StoreView {
    match call {
        SessionCall::Start { now } => after_start(store, now),
        SessionCall::End { notes, now } => after_end(store, notes, now),
        SessionCall::Work { issue_id } => after_work(store, issue_id),
    }
}

/// The store after a sequence of calls, made in order.
pub open spec fn after_calls(store: StoreView, calls: Seq<SessionCall>) -> StoreView
    decreases calls.len(),
{
    if calls.len() == 0 {
        store
    } else {
        after_call(after_calls(store, calls.drop_last()), calls.last())
    }
}

/// A call keeps the rules of the store, and so leaves at most one session
/// active. It touches no issue.
pub proof fn lemma_call_keeps_rules(store: StoreView, call: SessionCall)
    requires
        store.wf(),
    ensures
        after_call(store, call).wf(),
        after_call(store, call).at_most_one_active(),
        after_call(store, call).issues == store.issues,
{
    let next = after_call(store, call);
    assert(next.wf()) by {
        if next != store {
            let n = store.sessions.len() as int;
            assert(forall|i: int| 0 <= i < next.sessions.len() - 1 ==> next.sessions[i] == store.sessions[i]);
            assert(next.sessions.len() > 0);
            assert(next.sessions.last().id > 0);
            assert(forall|i: int| 0 <= i < next.sessions.len() - 1 ==> #[trigger] next.sessions[i].id < next.sessions.last().id);
        }
    }
    lemma_single_active_session(next);
}

/// Whatever calls are made, in whatever order, at most one session is active
/// after each of them.
pub proof fn lemma_at_most_one_active_session(store: StoreView, calls: Seq<SessionCall>)
    requires
        store.wf(),
    ensures
        after_calls(store, calls).wf(),
        after_calls(store, calls).at_most_one_active(),
    decreases calls.len(),
{
    if calls.len() == 0 {
        lemma_single_active_session(store);
    } else {
        lemma_at_most_one_active_session(store, calls.drop_last());
        lemma_call_keeps_rules(after_calls(store, calls.drop_last()), calls.last());
    }
}

/// No call deletes a session, or changes the id or the start time of one;
/// a session that has ended is never changed again.
pub proof fn lemma_ended_sessions_are_final(store: StoreView, call: SessionCall)
    requires
        store.wf(),
    ensures
        after_call(store, call).sessions.len() >= store.sessions.len(),
        forall|i: int|
            0 <= i < store.sessions.len() ==> {
                let before = #[trigger] store.sessions[i];
                let after = after_call(store, call).sessions[i];
                &&& after.id == before.id
                &&& after.started_at == before.started_at
                &&& !before.is_active() ==> after == before
            },
{
}

/// `start` while a session is active creates no session and changes none.
pub proof fn lemma_start_while_active(store: StoreView, now: i64)
    requires
        store.current_session() is Some,
    ensures
        after_start(store, now) == store,
{
}

/// `end` while no session is active creates no record and changes none.
pub proof fn lemma_end_without_session(store: StoreView, notes: Option<Seq<char>>, now: i64)
    requires
        store.current_session() is None,
    ensures
        after_end(store, notes, now) == store,
{
}

/// `work` on an issue of the store makes it the active session's issue and
/// changes nothing else of the session.
pub proof fn lemma_work_sets_issue(store: StoreView, issue_id: i64)
    requires
        store.current_session() is Some,
        store.has_issue(issue_id),
    ensures
        after_work(store, issue_id).current_session() == Some(
            store.current_session()->0.working_on(issue_id),
        ),
        after_work(store, issue_id).sessions.len() == store.sessions.len(),
{
}

/// A second `work` overwrites the issue that the first one set; with the same
/// issue it changes nothing.
pub proof fn lemma_work_overwrites(store: StoreView, first: i64, second: i64)
    requires
        store.current_session() is Some,
        store.has_issue(first),
        store.has_issue(second),
    ensures
        after_work(after_work(store, first), second) == after_work(store, second),
        after_work(after_work(store, first), first) == after_work(store, first),
{
    let once = after_work(store, first);
    assert(once.issues == store.issues);
    assert(once.has_issue(second) && once.has_issue(first)) by {
        let i = choose|i: int| 0 <= i < store.issues.len() && (#[trigger] store.issues[i]).id == second;
        assert(once.issues[i].id == second);
        let j = choose|j: int| 0 <= j < store.issues.len() && (#[trigger] store.issues[j]).id == first;
        assert(once.issues[j].id == first);
    }
    assert(after_work(once, second).sessions =~= after_work(store, second).sessions);
    assert(after_work(once, first).sessions =~= once.sessions);
}

/// `work` on an id that names no issue changes nothing: the issue set before
/// stays.
pub proof fn lemma_work_on_unknown_issue(store: StoreView, issue_id: i64)
    requires
        !store.has_issue(issue_id),
    ensures
        after_work(store, issue_id) == store,
{
}

} // verus!
