//! The record store: issues and work sessions, with the rules that every
//! operation keeps.

use crate::text::same_text;
use vstd::prelude::*;

verus! {

/// Whether an issue still needs work.
#[derive(Clone, Copy, Debug, PartialEq, Eq, Structural)]
pub enum IssueStatus {
    Open,
    Closed,
}

/// How urgent an issue is.
#[derive(Clone, Copy, Debug, PartialEq, Eq, Structural)]
pub enum Priority {
    Low,
    Medium,
    High,
    Critical,
}

/// The priority that `name` names: `low`, `medium`, `high` or `critical`.
pub open spec fn priority_named(name: Seq<char>) -> Option<Priority> {
    if name == "low"@ {
        Some(Priority::Low)
    } else if name == "medium"@ {
        Some(Priority::Medium)
    } else if name == "high"@ {
        Some(Priority::High)
    } else if name == "critical"@ {
        Some(Priority::Critical)
    } else {
        None
    }
}

/// The status that `name` names: `open` or `closed`.
pub open spec fn status_named(name: Seq<char>) -> Option<IssueStatus> {
    if name == "open"@ {
        Some(IssueStatus::Open)
    } else if name == "closed"@ {
        Some(IssueStatus::Closed)
    } else {
        None
    }
}

impl Priority {
    /// Reads a priority from its name.
    pub fn parse(name: &str) -> (priority: Option<Priority>)
        ensures
            priority == priority_named(name@),
    {
        if same_text(name, "low") {
            Some(Priority::Low)
        } else if same_text(name, "medium") {
            Some(Priority::Medium)
        } else if same_text(name, "high") {
            Some(Priority::High)
        } else if same_text(name, "critical") {
            Some(Priority::Critical)
        } else {
            None
        }
    }

    /// The name of the priority.
    pub fn name(self) -> (name: &'static str)
        ensures
            priority_named(name@) == Some(self),
    {
        proof {
            reveal_strlit("low");
            reveal_strlit("medium");
            reveal_strlit("high");
            reveal_strlit("critical");
            assert("low"@.len() == 3 && "medium"@.len() == 6 && "high"@.len() == 4);
        }
        match self {
            Priority::Low => "low",
            Priority::Medium => "medium",
            Priority::High => "high",
            Priority::Critical => "critical",
        }
    }
}

impl IssueStatus {
    /// Reads a status from its name.
    pub fn parse(name: &str) -> (status: Option<IssueStatus>)
        ensures
            status == status_named(name@),
    {
        if same_text(name, "open") {
            Some(IssueStatus::Open)
        } else if same_text(name, "closed") {
            Some(IssueStatus::Closed)
        } else {
            None
        }
    }

    /// The name of the status.
    pub fn name(self) -> (name: &'static str)
        ensures
            status_named(name@) == Some(self),
    {
        proof {
            reveal_strlit("open");
            reveal_strlit("closed");
            assert("open"@.len() == 4 && "closed"@.len() == 6);
        }
        match self {
            IssueStatus::Open => "open",
            IssueStatus::Closed => "closed",
        }
    }
}

/// Tells whether `name` names a priority.
pub fn validate_priority(name: &str) -> (valid: bool)
    ensures
        valid == priority_named(name@) is Some,
{
    Priority::parse(name).is_some()
}

/// One tracked issue.
#[derive(Clone, Debug, PartialEq, Eq)]
pub struct Issue {
    pub id: i64,
    pub title: String,
    pub description: Option<String>,
    pub status: IssueStatus,
    pub priority: Priority,
    pub labels: Vec<String>,
    pub comments: Vec<String>,
    /// Seconds since the Unix epoch.
    pub created_at: i64,
}

/// The mathematical value of an [`Issue`].
pub struct IssueView {
    pub id: i64,
    pub title: Seq<char>,
    pub description: Option<Seq<char>>,
    pub status: IssueStatus,
    pub priority: Priority,
    pub labels: Seq<Seq<char>>,
    pub comments: Seq<Seq<char>>,
    pub created_at: i64,
}

impl View for Issue {
    type V = IssueView;

    open spec fn view(&self) -> IssueView {
        IssueView {
            id: self.id,
            title: self.title@,
            description: self.description.deep_view(),
            status: self.status,
            priority: self.priority,
            labels: self.labels.deep_view(),
            comments: self.comments.deep_view(),
            created_at: self.created_at,
        }
    }
}

/// One work session. It is active while `ended_at` is `None`.
#[derive(Clone, Debug, PartialEq, Eq)]
pub struct Session {
    pub id: i64,
    /// Seconds since the Unix epoch.
    pub started_at: i64,
    /// Seconds since the Unix epoch, once the session has ended.
    pub ended_at: Option<i64>,
    pub active_issue_id: Option<i64>,
    pub handoff_notes: Option<String>,
}

/// The mathematical value of a [`Session`].
pub struct SessionView {
    pub id: i64,
    pub started_at: i64,
    pub ended_at: Option<i64>,
    pub active_issue_id: Option<i64>,
    pub handoff_notes: Option<Seq<char>>,
}

impl View for Session {
    type V = SessionView;

    open spec fn view(&self) -> SessionView {
        SessionView {
            id: self.id,
            started_at: self.started_at,
            ended_at: self.ended_at,
            active_issue_id: self.active_issue_id,
            handoff_notes: self.handoff_notes.deep_view(),
        }
    }
}

impl SessionView {
    /// A session is active until it has an end time.
    pub open spec fn is_active(self) -> bool {
        self.ended_at is None
    }

    /// A session as it is created at `now`: active, with no issue and no notes.
    pub open spec fn fresh(id: i64, now: i64) -> SessionView {
        SessionView {
            id,
            started_at: now,
            ended_at: None,
            active_issue_id: None,
            handoff_notes: None,
        }
    }

    /// This session, ended at `now` with `notes`.
    pub open spec fn ended(self, notes: Option<Seq<char>>, now: i64) -> SessionView {
        SessionView { ended_at: Some(now), handoff_notes: notes, ..self }
    }

    /// This session, working on `issue_id`.
    pub open spec fn working_on(self, issue_id: i64) -> SessionView {
        SessionView { active_issue_id: Some(issue_id), ..self }
    }
}

/// The mathematical value of a [`Store`]: its issues and its sessions, each
/// in order of creation.
pub struct StoreView {
    pub issues: Seq<IssueView>,
    pub sessions: Seq<SessionView>,
}

impl StoreView {
    /// The store that holds these records.
    pub open spec fn of(issues: Seq<Issue>, sessions: Seq<Session>) -> StoreView {
        StoreView {
            issues: issues.map_values(|i: Issue| i@),
            sessions: sessions.map_values(|s: Session| s@),
        }
    }

    /// A store without records.
    pub open spec fn empty() -> StoreView {
        StoreView { issues: Seq::empty(), sessions: Seq::empty() }
    }

    /// Session ids are positive and grow with each new session.
    pub open spec fn session_ids_increase(self) -> bool {
        &&& forall|i: int| 0 <= i < self.sessions.len() ==> 0 < (#[trigger] self.sessions[i]).id
        &&& forall|i: int, j: int|
            0 <= i < j < self.sessions.len() ==> (#[trigger] self.sessions[i]).id
                < (#[trigger] self.sessions[j]).id
    }

    /// Only the newest session can be active.
    pub open spec fn older_sessions_ended(self) -> bool {
        forall|i: int|
            0 <= i < self.sessions.len() - 1 ==> !(#[trigger] self.sessions[i]).is_active()
    }

    /// Issue ids are positive and grow with each new issue.
    pub open spec fn issue_ids_increase(self) -> bool {
        &&& forall|i: int| 0 <= i < self.issues.len() ==> 0 < (#[trigger] self.issues[i]).id
        &&& forall|i: int, j: int|
            0 <= i < j < self.issues.len() ==> (#[trigger] self.issues[i]).id
                < (#[trigger] self.issues[j]).id
    }

    /// No label occurs twice on one issue.
    pub open spec fn labels_distinct(self) -> bool {
        forall|i: int| 0 <= i < self.issues.len() ==> (#[trigger] self.issues[i]).labels.no_duplicates()
    }

    /// The rules that every store obeys.
    pub open spec fn wf(self) -> bool {
        &&& self.session_ids_increase()
        &&& self.older_sessions_ended()
        &&& self.issue_ids_increase()
        &&& self.labels_distinct()
    }

    /// No two sessions are active at once.
    pub open spec fn at_most_one_active(self) -> bool {
        forall|i: int, j: int|
            0 <= i < self.sessions.len() && 0 <= j < self.sessions.len()
                && (#[trigger] self.sessions[i]).is_active() && (#[trigger] self.sessions[j]).is_active()
                ==> i == j
    }

    /// The active session, if there is one.
    pub open spec fn current_session(self) -> Option<SessionView> {
        if self.sessions.len() > 0 && self.sessions.last().is_active() {
            Some(self.sessions.last())
        } else {
            None
        }
    }

    /// The session that ended most recently, if any has ended.
    pub open spec fn last_session(self) -> Option<SessionView> {
        let n = self.sessions.len() as int;
        if n > 0 && !self.sessions[n - 1].is_active() {
            Some(self.sessions[n - 1])
        } else if n > 1 {
            Some(self.sessions[n - 2])
        } else {
            None
        }
    }

    /// The id that the next session gets.
    pub open spec fn next_session_id(self) -> int {
        if self.sessions.len() == 0 {
            1
        } else {
            self.sessions.last().id + 1
        }
    }

    /// Whether a session can be created: none is active, and an id is left.
    pub open spec fn can_start_session(self) -> bool {
        self.current_session() is None && self.next_session_id() <= i64::MAX
    }

    /// The store after a session was created at `now`. Nothing is created
    /// while another session is active.
    pub open spec fn start_session(self, now: i64) -> StoreView {
        if self.can_start_session() {
            StoreView {
                sessions: self.sessions.push(
                    SessionView::fresh(self.next_session_id() as i64, now),
                ),
                ..self
            }
        } else {
            self
        }
    }

    /// The store after its newest session was replaced by `session`.
    pub open spec fn with_newest(self, session: SessionView) -> StoreView {
        StoreView { sessions: self.sessions.drop_last().push(session), ..self }
    }

    /// The store after session `id` was ended at `now` with `notes`: only
    /// the active session can be ended.
    pub open spec fn end_session(self, id: i64, notes: Option<Seq<char>>, now: i64) -> StoreView {
        match self.current_session() {
            Some(s) if s.id == id => self.with_newest(s.ended(notes, now)),
            _ => self,
        }
    }

    /// The store after session `session_id` turned to `issue_id`: only the
    /// active session can change its issue.
    pub open spec fn set_session_issue(self, session_id: i64, issue_id: i64) -> StoreView {
        match self.current_session() {
            Some(s) if s.id == session_id => self.with_newest(s.working_on(issue_id)),
            _ => self,
        }
    }

    /// The id that the next issue gets.
    pub open spec fn next_issue_id(self) -> int {
        if self.issues.len() == 0 {
            1
        } else {
            self.issues.last().id + 1
        }
    }

    /// Whether an issue has this id.
    pub open spec fn has_issue(self, id: i64) -> bool {
        exists|i: int| 0 <= i < self.issues.len() && (#[trigger] self.issues[i]).id == id
    }

    /// The place of issue `id` among the issues.
    pub open spec fn position(self, id: i64) -> int {
        choose|i: int| 0 <= i < self.issues.len() && (#[trigger] self.issues[i]).id == id
    }

    /// The issue with this id, if there is one.
    pub open spec fn get_issue(self, id: i64) -> Option<IssueView> {
        if self.has_issue(id) {
            Some(self.issues[self.position(id)])
        } else {
            None
        }
    }

    /// The store with `issue` in place of the issue of the same id. A store
    /// without such an issue stays as it is.
    pub open spec fn with_issue(self, issue: IssueView) -> StoreView {
        if self.has_issue(issue.id) {
            StoreView { issues: self.issues.update(self.position(issue.id), issue), ..self }
        } else {
            self
        }
    }

    /// Whether an issue can be created: an id is left.
    pub open spec fn can_create_issue(self) -> bool {
        self.next_issue_id() <= i64::MAX
    }

    /// The store after an open issue without labels or comments was created
    /// at `now`.
    pub open spec fn create_issue(
        self,
        title: Seq<char>,
        description: Option<Seq<char>>,
        priority: Priority,
        now: i64,
    ) -> StoreView {
        if self.can_create_issue() {
            StoreView {
                issues: self.issues.push(
                    IssueView {
                        id: self.next_issue_id() as i64,
                        title,
                        description,
                        status: IssueStatus::Open,
                        priority,
                        labels: Seq::empty(),
                        comments: Seq::empty(),
                        created_at: now,
                    },
                ),
                ..self
            }
        } else {
            self
        }
    }

    /// The store without issue `id`.
    pub open spec fn delete_issue(self, id: i64) -> StoreView {
        if self.has_issue(id) {
            StoreView { issues: self.issues.remove(self.position(id)), ..self }
        } else {
            self
        }
    }

    /// The store after `text` was added to the comments of issue `id`.
    pub open spec fn add_comment(self, id: i64, text: Seq<char>) -> StoreView {
        match self.get_issue(id) {
            Some(issue) => self.with_issue(
                IssueView { comments: issue.comments.push(text), ..issue },
            ),
            None => self,
        }
    }

    /// Whether issue `id` carries `label`.
    pub open spec fn has_label(self, id: i64, label: Seq<char>) -> bool {
        self.get_issue(id) matches Some(issue) && issue.labels.contains(label)
    }

    /// The store after `label` was put on issue `id`, which did not carry it.
    pub open spec fn add_label(self, id: i64, label: Seq<char>) -> StoreView {
        match self.get_issue(id) {
            Some(issue) if !issue.labels.contains(label) => self.with_issue(
                IssueView { labels: issue.labels.push(label), ..issue },
            ),
            _ => self,
        }
    }

    /// The store after `label` was taken off issue `id`, which carried it.
    pub open spec fn remove_label(self, id: i64, label: Seq<char>) -> StoreView {
        match self.get_issue(id) {
            Some(issue) if issue.labels.contains(label) => self.with_issue(
                IssueView { labels: issue.labels.remove(issue.labels.index_of(label)), ..issue },
            ),
            _ => self,
        }
    }

    /// The store after issue `id` was given this status.
    pub open spec fn set_status(self, id: i64, status: IssueStatus) -> StoreView {
        match self.get_issue(id) {
            Some(issue) => self.with_issue(IssueView { status, ..issue }),
            None => self,
        }
    }

    /// The store after the fields of issue `id` that are given were replaced.
    pub open spec fn update_issue(
        self,
        id: i64,
        title: Option<Seq<char>>,
        description: Option<Seq<char>>,
        priority: Option<Priority>,
    ) -> StoreView {
        match self.get_issue(id) {
            Some(issue) => self.with_issue(
                IssueView {
                    title: match title {
                        Some(text) => text,
                        None => issue.title,
                    },
                    description: match description {
                        Some(text) => Some(text),
                        None => issue.description,
                    },
                    priority: match priority {
                        Some(p) => p,
                        None => issue.priority,
                    },
                    ..issue
                },
            ),
            None => self,
        }
    }

    /// The issues that pass every filter that is given, in order of creation.
    pub open spec fn list_issues(
        self,
        status: Option<IssueStatus>,
        label: Option<Seq<char>>,
        priority: Option<Priority>,
    ) -> Seq<IssueView> {
        self.issues.filter(|issue: IssueView| issue.passes(status, label, priority))
    }
}

impl IssueView {
    /// Whether the issue passes every filter that is given: it has the
    /// status, carries the label, and has the priority.
    pub open spec fn passes(
        self,
        status: Option<IssueStatus>,
        label: Option<Seq<char>>,
        priority: Option<Priority>,
    ) -> bool {
        &&& status matches Some(s) ==> self.status == s
        &&& label matches Some(l) ==> self.labels.contains(l)
        &&& priority matches Some(p) ==> self.priority == p
    }
}

/// In a store that obeys the rules, at most one session is active, and
/// the session that ended last has indeed ended.
pub proof fn lemma_single_active_session(store: StoreView)
    requires
        store.wf(),
    ensures
        store.at_most_one_active(),
        store.current_session() matches Some(s) ==> s.is_active(),
        store.last_session() matches Some(s) ==> !s.is_active(),
        store.current_session() is None ==> forall|i: int|
            0 <= i < store.sessions.len() ==> !(#[trigger] store.sessions[i]).is_active(),
{
}

/// In a store that obeys the rules, an id names at most one issue: the
/// issue found at any position with that id is the issue of that id.
pub proof fn lemma_issue_at(store: StoreView, i: int)
    requires
        store.wf(),
        0 <= i < store.issues.len(),
    ensures
        store.has_issue(store.issues[i].id),
        store.position(store.issues[i].id) == i,
        store.get_issue(store.issues[i].id) == Some(store.issues[i]),
{
    let id = store.issues[i].id;
    let c = store.position(id);
    assert(c == i) by {
        if c < i {
            assert(store.issues[c].id < store.issues[i].id);
        }
        if i < c {
            assert(store.issues[i].id < store.issues[c].id);
        }
    }
}

/// Replacing an issue by one of the same id, whose labels are distinct,
/// keeps the rules of the store and touches nothing else.
pub proof fn lemma_with_issue_keeps_rules(store: StoreView, issue: IssueView)
    requires
        store.wf(),
        issue.labels.no_duplicates(),
    ensures
        store.with_issue(issue).wf(),
        store.with_issue(issue).sessions == store.sessions,
        store.with_issue(issue).issues.len() == store.issues.len(),
        store.has_issue(issue.id) ==> store.with_issue(issue).get_issue(issue.id) == Some(issue),
{
    if store.has_issue(issue.id) {
        let i = store.position(issue.id);
        let next = store.with_issue(issue);
        assert(forall|j: int| 0 <= j < next.issues.len() ==> (#[trigger] next.issues[j]).id == store.issues[j].id);
        assert(next.issue_ids_increase()) by {
            assert forall|a: int, b: int| 0 <= a < b < next.issues.len() implies (#[trigger] next.issues[a]).id < (#[trigger] next.issues[b]).id by {
                assert(store.issues[a].id < store.issues[b].id);
            }
            assert forall|a: int| 0 <= a < next.issues.len() implies 0 < (#[trigger] next.issues[a]).id by {
                assert(0 < store.issues[a].id);
            }
        }
        assert(next.labels_distinct()) by {
            assert forall|a: int| 0 <= a < next.issues.len() implies (#[trigger] next.issues[a]).labels.no_duplicates() by {
                if a != i {
                    assert(store.issues[a].labels.no_duplicates());
                }
            }
        }
        assert(next.wf());
        lemma_issue_at(next, i);
    }
}

/// Replacing an issue leaves every other issue as it was.
pub proof fn lemma_with_issue_keeps_others(store: StoreView, issue: IssueView, other: i64)
    requires
        store.wf(),
        other != issue.id,
    ensures
        store.with_issue(issue).has_issue(other) == store.has_issue(other),
        store.with_issue(issue).get_issue(other) == store.get_issue(other),
{
    if store.has_issue(issue.id) {
        let next = store.with_issue(issue);
        let i = store.position(issue.id);
        assert(forall|j: int|
            0 <= j < next.issues.len() ==> (#[trigger] next.issues[j]).id == store.issues[j].id);
        if store.has_issue(other) {
            let k = store.position(other);
            assert(next.issues[k].id == other);
            let c = next.position(other);
            assert(store.issues[c].id == other);
            lemma_issue_at(store, c);
        } else if next.has_issue(other) {
            let c = next.position(other);
            assert(store.issues[c].id == other);
        }
    }
}

/// The value of an optional borrowed session.
pub open spec fn session_view(session: Option<&Session>) -> Option<SessionView> {
    match session {
        Some(s) => Some(s@),
        None => None,
    }
}

/// The value of an optional borrowed issue.
pub open spec fn issue_view(issue: Option<&Issue>) -> Option<IssueView> {
    match issue {
        Some(i) => Some(i@),
        None => None,
    }
}

/// Issues and sessions, held in memory in order of creation.
pub struct Store {
    issues: Vec<Issue>,
    sessions: Vec<Session>,
}

impl View for Store {
    type V = StoreView;

    closed spec fn view(&self) -> StoreView {
        StoreView {
            issues: self.issues@.map_values(|i: Issue| i@),
            sessions: self.sessions@.map_values(|s: Session| s@),
        }
    }
}

impl Store {
    /// The rules that every store obeys.
    pub open spec fn wf(&self) -> bool {
        self@.wf()
    }

    /// A store without records.
    pub fn new() -> (store: Store)
        ensures
            store@ == StoreView::empty(),
            store.wf(),
    {
        let store = Store { issues: Vec::new(), sessions: Vec::new() };
        assert(store@.issues =~= Seq::empty());
        assert(store@.sessions =~= Seq::empty());
        store
    }

    /// Makes a store of records that were kept elsewhere. Returns `None`
    /// when they break a rule of the store.
    pub fn from_records(issues: Vec<Issue>, sessions: Vec<Session>) -> (store: Option<Store>)
        ensures
            match store {
                Some(s) => s.wf() && s@ == StoreView::of(issues@, sessions@),
                None => !StoreView::of(issues@, sessions@).wf(),
            },
    {
        let ghost view = StoreView::of(issues@, sessions@);
        let mut i: usize = 0;
        while i < sessions.len()
            invariant
                i <= sessions.len(),
                view == StoreView::of(issues@, sessions@),
                forall|a: int| 0 <= a < i ==> 0 < (#[trigger] view.sessions[a]).id,
                forall|a: int, b: int|
                    0 <= a < b < i ==> (#[trigger] view.sessions[a]).id < (
                    #[trigger] view.sessions[b]).id,
                forall|a: int|
                    0 <= a < i && a < sessions.len() - 1 ==> !(#[trigger] view.sessions[a]).is_active(),
            decreases sessions.len() - i,
        {
            let session = &sessions[i];
            assert(view.sessions[i as int] == session@);
            if session.id <= 0 {
                return None;
            }
            if i > 0 && sessions[i - 1].id >= session.id {
                assert(view.sessions[i - 1] == sessions@[i - 1]@);
                return None;
            }
            if i + 1 < sessions.len() && session.ended_at.is_none() {
                return None;
            }
            proof {
                if i > 0 {
                    assert(view.sessions[i - 1] == sessions@[i - 1]@);
                    assert forall|a: int| 0 <= a < i implies (#[trigger] view.sessions[a]).id
                        < session.id by {
                        if a < i - 1 {
                            assert(view.sessions[a].id < view.sessions[i - 1].id);
                        }
                    }
                }
            }
            i += 1;
        }
        let mut k: usize = 0;
        while k < issues.len()
            invariant
                k <= issues.len(),
                view == StoreView::of(issues@, sessions@),
                view.session_ids_increase(),
                view.older_sessions_ended(),
                forall|a: int| 0 <= a < k ==> 0 < (#[trigger] view.issues[a]).id,
                forall|a: int, b: int|
                    0 <= a < b < k ==> (#[trigger] view.issues[a]).id < (
                    #[trigger] view.issues[b]).id,
                forall|a: int| 0 <= a < k ==> (#[trigger] view.issues[a]).labels.no_duplicates(),
            decreases issues.len() - k,
        {
            let issue = &issues[k];
            assert(view.issues[k as int] == issue@);
            if issue.id <= 0 {
                return None;
            }
            if k > 0 && issues[k - 1].id >= issue.id {
                assert(view.issues[k - 1] == issues@[k - 1]@);
                return None;
            }
            if !distinct_texts(&issue.labels) {
                return None;
            }
            proof {
                if k > 0 {
                    assert(view.issues[k - 1] == issues@[k - 1]@);
                    assert forall|a: int| 0 <= a < k implies (#[trigger] view.issues[a]).id
                        < issue.id by {
                        if a < k - 1 {
                            assert(view.issues[a].id < view.issues[k - 1].id);
                        }
                    }
                }
            }
            k += 1;
        }
        Some(Store { issues, sessions })
    }

    /// The position of the issue with this id.
    fn find_issue(&self, id: i64) -> (at: Option<usize>)
        requires
            self.wf(),
        ensures
            at matches Some(i) ==> i < self.issues.len() && self@.issues[i as int].id == id
                && self@.has_issue(id) && self@.position(id) == i
                && self@.issues[i as int] == self.issues[i as int]@
                && self@.get_issue(id) == Some(self@.issues[i as int]),
            at is None ==> !self@.has_issue(id),
    {
        let mut i: usize = 0;
        while i < self.issues.len()
            invariant
                self.wf(),
                i <= self.issues.len(),
                self@.issues.len() == self.issues.len(),
                forall|k: int| 0 <= k < i ==> (#[trigger] self@.issues[k]).id != id,
            decreases self.issues.len() - i,
        {
            if self.issues[i].id == id {
                proof {
                    lemma_issue_at(self@, i as int);
                }
                return Some(i);
            }
            i += 1;
        }
        None
    }

    /// The issue with this id, if there is one.
    pub fn get_issue(&self, id: i64) -> (found: Option<&Issue>)
        requires
            self.wf(),
        ensures
            issue_view(found) == self@.get_issue(id),
    {
        match self.find_issue(id) {
            Some(i) => Some(&self.issues[i]),
            None => None,
        }
    }

    /// The active session, if there is one.
    pub fn get_current_session(&self) -> (current: Option<&Session>)
        ensures
            session_view(current) == self@.current_session(),
    {
        let n = self.sessions.len();
        if n > 0 && self.sessions[n - 1].ended_at.is_none() {
            Some(&self.sessions[n - 1])
        } else {
            None
        }
    }

    /// The session that ended most recently, if any has ended.
    pub fn get_last_session(&self) -> (last: Option<&Session>)
        ensures
            session_view(last) == self@.last_session(),
    {
        let n = self.sessions.len();
        if n > 0 && self.sessions[n - 1].ended_at.is_some() {
            Some(&self.sessions[n - 1])
        } else if n > 1 {
            Some(&self.sessions[n - 2])
        } else {
            None
        }
    }

    /// Creates a session that starts at `now` and returns its id. Returns
    /// `None`, and creates nothing, while another session is active or when no
    /// id is left.
    pub fn start_session(&mut self, now: i64) -> (id: Option<i64>)
        requires
            old(self).wf(),
        ensures
            final(self).wf(),
            final(self)@ == old(self)@.start_session(now),
            old(self)@.can_start_session() ==> id == Some(old(self)@.next_session_id() as i64),
            !old(self)@.can_start_session() ==> id is None,
    {
        let n = self.sessions.len();
        let id: i64 = if n == 0 {
            1
        } else {
            let newest = &self.sessions[n - 1];
            if newest.ended_at.is_none() || newest.id == i64::MAX {
                return None;
            }
            newest.id + 1
        };
        self.sessions.push(
            Session { id, started_at: now, ended_at: None, active_issue_id: None, handoff_notes: None },
        );
        proof {
            assert(final(self)@.sessions =~= old(self)@.sessions.push(SessionView::fresh(id, now)));
            assert(final(self)@.issues =~= old(self)@.issues);
        }
        Some(id)
    }

    /// Ends session `id` at `now`, leaving `notes` for the next session.
    /// Only the active session can be ended: for any other id nothing
    /// changes and the result is `false`.
    pub fn end_session(&mut self, id: i64, notes: Option<String>, now: i64) -> (done: bool)
        requires
            old(self).wf(),
        ensures
            final(self).wf(),
            final(self)@ == old(self)@.end_session(id, notes.deep_view(), now),
            done == (old(self)@.current_session() matches Some(s) && s.id == id),
    {
        let n = self.sessions.len();
        if n == 0 || self.sessions[n - 1].ended_at.is_some() || self.sessions[n - 1].id != id {
            return false;
        }
        let mut session = self.sessions.pop().unwrap();
        let ghost before = session@;
        session.ended_at = Some(now);
        session.handoff_notes = notes;
        self.sessions.push(session);
        proof {
            assert(final(self)@.sessions =~= old(self)@.sessions.drop_last().push(
                before.ended(notes.deep_view(), now),
            ));
            assert(final(self)@.issues =~= old(self)@.issues);
        }
        true
    }

    /// Records that session `session_id` now works on `issue_id`. Only the
    /// active session can change: for any other id nothing changes and the
    /// result is `false`.
    pub fn set_session_issue(&mut self, session_id: i64, issue_id: i64) -> (done: bool)
        requires
            old(self).wf(),
        ensures
            final(self).wf(),
            final(self)@ == old(self)@.set_session_issue(session_id, issue_id),
            done == (old(self)@.current_session() matches Some(s) && s.id == session_id),
    {
        let n = self.sessions.len();
        if n == 0 || self.sessions[n - 1].ended_at.is_some() || self.sessions[n - 1].id
            != session_id {
            return false;
        }
        let mut session = self.sessions.pop().unwrap();
        let ghost before = session@;
        session.active_issue_id = Some(issue_id);
        self.sessions.push(session);
        proof {
            assert(final(self)@.sessions =~= old(self)@.sessions.drop_last().push(
                before.working_on(issue_id),
            ));
            assert(final(self)@.issues =~= old(self)@.issues);
        }
        true
    }

    /// Whether this store is `before` without the issue at place `i`.
    spec fn lacks(&self, before: StoreView, i: int) -> bool {
        &&& 0 <= i < before.issues.len()
        &&& self.issues@.len() == before.issues.len() - 1
        &&& self.sessions@.map_values(|s: Session| s@) == before.sessions
        &&& self.issues@.map_values(|i: Issue| i@) == before.issues.remove(i)
    }

    /// Takes the issue at place `i` out, to be changed and put back.
    fn take_issue(&mut self, i: usize) -> (issue: Issue)
        requires
            i < old(self).issues.len(),
        ensures
            issue@ == old(self)@.issues[i as int],
            final(self).lacks(old(self)@, i as int),
    {
        let issue = self.issues.remove(i);
        proof {
            assert(final(self).issues@.map_values(|i: Issue| i@) =~= old(self)@.issues.remove(
                i as int,
            ));
        }
        issue
    }

    /// Puts `issue` where the issue at place `i` was taken out.
    fn put_issue(&mut self, i: usize, issue: Issue, Ghost(before): Ghost<StoreView>)
        requires
            before.wf(),
            old(self).lacks(before, i as int),
            before.position(issue.id) == i,
            before.has_issue(issue.id),
            issue.labels.deep_view().no_duplicates(),
        ensures
            final(self)@ == before.with_issue(issue@),
            final(self).wf(),
    {
        self.issues.insert(i, issue);
        proof {
            let rest = old(self).issues@.map_values(|i: Issue| i@);
            let now = final(self)@.issues;
            assert(now.len() == before.issues.len());
            assert forall|j: int| 0 <= j < now.len() implies now[j] == before.issues.update(
                i as int,
                issue@,
            )[j] by {
                if j < i {
                    assert(rest[j] == before.issues[j]);
                } else if j > i {
                    assert(rest[j - 1] == before.issues[j]);
                }
            }
            assert(final(self)@.issues =~= before.issues.update(i as int, issue@));
            lemma_with_issue_keeps_rules(before, issue@);
        }
    }

    /// Creates an open issue at `now` and returns its id. Returns `None`, and
    /// creates nothing, when no id is left.
    pub fn create_issue(
        &mut self,
        title: &str,
        description: Option<&str>,
        priority: Priority,
        now: i64,
    ) -> (id: Option<i64>)
        requires
            old(self).wf(),
        ensures
            final(self).wf(),
            final(self)@ == old(self)@.create_issue(title@, description.deep_view(), priority, now),
            old(self)@.can_create_issue() ==> id == Some(old(self)@.next_issue_id() as i64),
            !old(self)@.can_create_issue() ==> id is None,
            id matches Some(new) ==> !old(self)@.has_issue(new) && final(self)@.get_issue(new)
                == Some(final(self)@.issues.last()),
    {
        let n = self.issues.len();
        let id: i64 = if n == 0 {
            1
        } else {
            let newest = &self.issues[n - 1];
            if newest.id == i64::MAX {
                return None;
            }
            newest.id + 1
        };
        let issue = Issue {
            id,
            title: title.to_owned(),
            description: match description {
                Some(text) => Some(text.to_owned()),
                None => None,
            },
            status: IssueStatus::Open,
            priority,
            labels: Vec::new(),
            comments: Vec::new(),
            created_at: now,
        };
        proof {
            assert(issue.labels.deep_view() =~= Seq::<Seq<char>>::empty());
            assert(issue.comments.deep_view() =~= Seq::<Seq<char>>::empty());
        }
        self.issues.push(issue);
        proof {
            assert(final(self)@.issues =~= old(self)@.issues.push(issue@));
            assert(final(self)@.sessions =~= old(self)@.sessions);
            lemma_issue_at(final(self)@, n as int);
            if old(self)@.has_issue(id) {
                let at = old(self)@.position(id);
                assert(old(self)@.issues[at].id <= old(self)@.issues.last().id);
            }
        }
        Some(id)
    }

    /// Removes issue `id`. Returns whether there was such an issue.
    pub fn delete_issue(&mut self, id: i64) -> (removed: bool)
        requires
            old(self).wf(),
        ensures
            final(self).wf(),
            final(self)@ == old(self)@.delete_issue(id),
            removed == old(self)@.has_issue(id),
            !final(self)@.has_issue(id),
    {
        match self.find_issue(id) {
            Some(i) => {
                let _ = self.issues.remove(i);
                proof {
                    assert(final(self)@.issues =~= old(self)@.issues.remove(i as int));
                    assert(final(self)@.sessions =~= old(self)@.sessions);
                    let before = old(self)@.issues;
                    let after = final(self)@.issues;
                    assert forall|a: int| 0 <= a < after.len() implies (#[trigger] after[a]).id
                        != id && 0 < after[a].id && after[a].labels.no_duplicates() by {
                        if a < i {
                            assert(after[a] == before[a]);
                            assert(before[a].id < before[i as int].id);
                        } else {
                            assert(after[a] == before[a + 1]);
                            assert(before[i as int].id < before[a + 1].id);
                        }
                    }
                    assert forall|a: int, b: int| 0 <= a < b < after.len() implies (
                    #[trigger] after[a]).id < (#[trigger] after[b]).id by {
                        let a0 = if a < i { a } else { a + 1 };
                        let b0 = if b < i { b } else { b + 1 };
                        assert(after[a] == before[a0]);
                        assert(after[b] == before[b0]);
                        assert(before[a0].id < before[b0].id);
                    }
                }
                true
            },
            None => false,
        }
    }

    /// Adds `text` to the comments of issue `id`. Returns whether there is
    /// such an issue.
    pub fn add_comment(&mut self, id: i64, text: &str) -> (added: bool)
        requires
            old(self).wf(),
        ensures
            final(self).wf(),
            final(self)@ == old(self)@.add_comment(id, text@),
            added == old(self)@.has_issue(id),
    {
        match self.find_issue(id) {
            Some(i) => {
                let mut issue = self.take_issue(i);
                let ghost before = issue@;
                issue.comments.push(text.to_owned());
                proof {
                    assert(issue.comments.deep_view() =~= before.comments.push(text@));
                    assert(issue.labels.deep_view() == before.labels);
                }
                self.put_issue(i, issue, Ghost(old(self)@));
                true
            },
            None => false,
        }
    }

    /// Puts `label` on issue `id`. Returns `None` when there is no such
    /// issue, else whether the label is new to the issue.
    pub fn add_label(&mut self, id: i64, label: &str) -> (added: Option<bool>)
        requires
            old(self).wf(),
        ensures
            final(self).wf(),
            final(self)@ == old(self)@.add_label(id, label@),
            added == if old(self)@.has_issue(id) {
                Some(!old(self)@.has_label(id, label@))
            } else {
                None
            },
    {
        match self.find_issue(id) {
            Some(i) => {
                if find_text(&self.issues[i].labels, label).is_some() {
                    return Some(false);
                }
                let mut issue = self.take_issue(i);
                let ghost before = issue@;
                issue.labels.push(label.to_owned());
                proof {
                    assert(issue.labels.deep_view() =~= before.labels.push(label@));
                    assert(before.labels.no_duplicates());
                }
                self.put_issue(i, issue, Ghost(old(self)@));
                Some(true)
            },
            None => None,
        }
    }

    /// Takes `label` off issue `id`. Returns `None` when there is no such
    /// issue, else whether the issue carried the label.
    pub fn remove_label(&mut self, id: i64, label: &str) -> (removed: Option<bool>)
        requires
            old(self).wf(),
        ensures
            final(self).wf(),
            final(self)@ == old(self)@.remove_label(id, label@),
            removed == if old(self)@.has_issue(id) {
                Some(old(self)@.has_label(id, label@))
            } else {
                None
            },
    {
        match self.find_issue(id) {
            Some(i) => {
                let k = match find_text(&self.issues[i].labels, label) {
                    Some(k) => k,
                    None => {
                        return Some(false);
                    },
                };
                let mut issue = self.take_issue(i);
                let ghost before = issue@;
                let _ = issue.labels.remove(k);
                proof {
                    assert(before.labels.no_duplicates());
                    assert(before.labels.index_of(label@) == k);
                    assert(issue.labels.deep_view() =~= before.labels.remove(k as int));
                }
                self.put_issue(i, issue, Ghost(old(self)@));
                Some(true)
            },
            None => None,
        }
    }

    /// Gives issue `id` this status.
    fn set_status(&mut self, id: i64, status: IssueStatus) -> (done: bool)
        requires
            old(self).wf(),
        ensures
            final(self).wf(),
            final(self)@ == old(self)@.set_status(id, status),
            done == old(self)@.has_issue(id),
    {
        match self.find_issue(id) {
            Some(i) => {
                let mut issue = self.take_issue(i);
                issue.status = status;
                self.put_issue(i, issue, Ghost(old(self)@));
                true
            },
            None => false,
        }
    }

    /// Closes issue `id`. Returns whether there is such an issue.
    pub fn close_issue(&mut self, id: i64) -> (done: bool)
        requires
            old(self).wf(),
        ensures
            final(self).wf(),
            final(self)@ == old(self)@.set_status(id, IssueStatus::Closed),
            done == old(self)@.has_issue(id),
    {
        self.set_status(id, IssueStatus::Closed)
    }

    /// Opens issue `id` again. Returns whether there is such an issue.
    pub fn reopen_issue(&mut self, id: i64) -> (done: bool)
        requires
            old(self).wf(),
        ensures
            final(self).wf(),
            final(self)@ == old(self)@.set_status(id, IssueStatus::Open),
            done == old(self)@.has_issue(id),
    {
        self.set_status(id, IssueStatus::Open)
    }

    /// Replaces the fields of issue `id` that are given. Returns whether
    /// there is such an issue.
    pub fn update_issue(
        &mut self,
        id: i64,
        title: Option<&str>,
        description: Option<&str>,
        priority: Option<Priority>,
    ) -> (done: bool)
        requires
            old(self).wf(),
        ensures
            final(self).wf(),
            final(self)@ == old(self)@.update_issue(
                id,
                title.deep_view(),
                description.deep_view(),
                priority,
            ),
            done == old(self)@.has_issue(id),
    {
        match self.find_issue(id) {
            Some(i) => {
                let mut issue = self.take_issue(i);
                match title {
                    Some(text) => {
                        issue.title = text.to_owned();
                    },
                    None => {},
                }
                match description {
                    Some(text) => {
                        issue.description = Some(text.to_owned());
                    },
                    None => {},
                }
                match priority {
                    Some(p) => {
                        issue.priority = p;
                    },
                    None => {},
                }
                self.put_issue(i, issue, Ghost(old(self)@));
                true
            },
            None => false,
        }
    }

    /// The issues that pass every filter that is given, in order of creation.
    pub fn list_issues(
        &self,
        status: Option<IssueStatus>,
        label: Option<&str>,
        priority: Option<Priority>,
    ) -> (listed: Vec<&Issue>)
        ensures
            issue_views(listed@) == self@.list_issues(status, label.deep_view(), priority),
    {
        let ghost pred = |issue: IssueView| issue.passes(status, label.deep_view(), priority);
        let mut listed: Vec<&Issue> = Vec::new();
        let mut i: usize = 0;
        assert(self@.issues.take(0) =~= Seq::<IssueView>::empty());
        assert(issue_views(listed@) =~= Seq::<IssueView>::empty());
        while i < self.issues.len()
            invariant
                i <= self.issues.len(),
                self@.issues.len() == self.issues.len(),
                pred == |issue: IssueView| issue.passes(status, label.deep_view(), priority),
                issue_views(listed@) == self@.issues.take(i as int).filter(pred),
            decreases self.issues.len() - i,
        {
            let issue = &self.issues[i];
            let wanted = (match status {
                Some(s) => issue.status == s,
                None => true,
            }) && (match label {
                Some(l) => find_text(&issue.labels, l).is_some(),
                None => true,
            }) && (match priority {
                Some(p) => issue.priority == p,
                None => true,
            });
            proof {
                assert(self@.issues.take(i + 1) =~= self@.issues.take(i as int).push(issue@));
                self@.issues.take(i as int).lemma_filter_push(issue@, pred);
                assert(wanted == pred(issue@));
            }
            if wanted {
                let ghost before = listed@;
                listed.push(issue);
                proof {
                    assert(issue_views(listed@) =~= issue_views(before).push(issue@));
                }
            }
            i += 1;
        }
        assert(self@.issues.take(i as int) =~= self@.issues);
        listed
    }

    /// The issues, in order of creation.
    pub fn issues(&self) -> (all: &Vec<Issue>)
        ensures
            all@.map_values(|i: Issue| i@) == self@.issues,
    {
        &self.issues
    }

    /// The sessions, in order of creation.
    pub fn sessions(&self) -> (all: &Vec<Session>)
        ensures
            all@.map_values(|s: Session| s@) == self@.sessions,
    {
        &self.sessions
    }
}

/// The values of borrowed issues.
pub open spec fn issue_views(issues: Seq<&Issue>) -> Seq<IssueView> {
    issues.map_values(|issue: &Issue| issue@)
}

/// Tells whether no text occurs twice among `texts`.
fn distinct_texts(texts: &Vec<String>) -> (distinct: bool)
    ensures
        distinct == texts.deep_view().no_duplicates(),
{
    let ghost views = texts.deep_view();
    let mut k: usize = 0;
    while k < texts.len()
        invariant
            k <= texts.len(),
            views == texts.deep_view(),
            forall|a: int, b: int| 0 <= a < b < k ==> views[a] != views[b],
        decreases texts.len() - k,
    {
        let mut j: usize = 0;
        while j < k
            invariant
                j <= k < texts.len(),
                views == texts.deep_view(),
                forall|a: int| 0 <= a < j ==> views[a] != views[k as int],
            decreases k - j,
        {
            if texts[j] == texts[k] {
                assert(views[j as int] == views[k as int]);
                return false;
            }
            j += 1;
        }
        k += 1;
    }
    true
}

/// The place of `text` among `texts`.
fn find_text(texts: &Vec<String>, text: &str) -> (at: Option<usize>)
    ensures
        at matches Some(k) ==> k < texts.len() && texts.deep_view()[k as int] == text@,
        at is None ==> !texts.deep_view().contains(text@),
{
    let wanted = text.to_owned();
    let mut k: usize = 0;
    while k < texts.len()
        invariant
            k <= texts.len(),
            wanted@ == text@,
            forall|j: int| 0 <= j < k ==> texts.deep_view()[j] != text@,
        decreases texts.len() - k,
    {
        if texts[k] == wanted {
            return Some(k);
        }
        k += 1;
    }
    None
}

} // verus!