//! Listing issues as fixed-width rows.

use crate::store::{
    issue_views, priority_named, status_named, Issue, IssueStatus, IssueView, Priority, Store,
    StoreView,
};
use vstd::prelude::*;
use vstd::string::*;
use vstd::utf8::*;

verus! {

/// The three full stops that mark a shortened title.
pub open spec fn ellipsis() -> Seq<char> {
    seq!['.', '.', '.']
}

/// What `truncate` yields: the text itself when its UTF-8 encoding has at
/// most `max_len` bytes, else the first `max_len - 3` bytes of the encoding,
/// decoded, followed by an ellipsis.
pub open spec fn truncated(s: Seq<char>, max_len: int) -> Seq<char> {
    if encode_utf8(s).len() <= max_len {
        s
    } else {
        decode_utf8(encode_utf8(s).subrange(0, max_len - 3)) + ellipsis()
    }
}

/// Whether `truncate` can cut `s` down to `max_len` bytes: either nothing has
/// to be cut, or there is room for the ellipsis and the cut falls between two
/// characters.
pub open spec fn can_truncate(s: Seq<char>, max_len: int) -> bool {
    encode_utf8(s).len() > max_len ==> max_len >= 3 && is_char_boundary(
        encode_utf8(s),
        max_len - 3,
    )
}

/// Shortens `s` to at most `max_len` bytes, ending a shortened text with `...`.
pub fn truncate(s: &str, max_len: usize) -> (out: String)
    requires
        can_truncate(s@, max_len as int),
    ensures
        out@ == truncated(s@, max_len as int),
{
    if s.as_bytes().len() <= max_len {
        s.to_owned()
    } else {
        let (head, _) = s.split_at(max_len - 3);
        let mut out = head.to_owned();
        out.append("...");
        proof {
            reveal_strlit("...");
            encode_utf8_decode_utf8(head@);
            assert("..."@ =~= ellipsis());
        }
        out
    }
}

/// The width, in bytes, that a title is shortened to in a row.
pub const TITLE_WIDTH: usize = 40;

/// Shortens `s` like `truncate` where that can be done, and gives `None`
/// where the cut would fall inside a character or leave no room for the
/// ellipsis.
pub fn try_truncate(s: &str, max_len: usize) -> (out: Option<String>)
    ensures
        out.deep_view() == if can_truncate(s@, max_len as int) {
            Some(truncated(s@, max_len as int))
        } else {
            None
        },
{
    if s.as_bytes().len() <= max_len || (max_len >= 3 && s.is_char_boundary(max_len - 3)) {
        Some(truncate(s, max_len))
    } else {
        None
    }
}

/// One line of the list.
#[derive(Debug, PartialEq, Eq)]
pub struct Row {
    pub id: i64,
    pub status: IssueStatus,
    /// The title, shortened to `TITLE_WIDTH` bytes, or `None` where it cannot
    /// be shortened.
    pub title: Option<String>,
    pub priority: Priority,
    /// Seconds since the Unix epoch.
    pub created_at: i64,
}

/// The mathematical value of a [`Row`].
pub struct RowView {
    pub id: i64,
    pub status: IssueStatus,
    pub title: Option<Seq<char>>,
    pub priority: Priority,
    pub created_at: i64,
}

impl View for Row {
    type V = RowView;

    open spec fn view(&self) -> RowView {
        RowView {
            id: self.id,
            status: self.status,
            title: self.title.deep_view(),
            priority: self.priority,
            created_at: self.created_at,
        }
    }
}

/// The row that shows `issue`.
pub open spec fn row_of(issue: IssueView) -> RowView {
    RowView {
        id: issue.id,
        status: issue.status,
        title: if can_truncate(issue.title, TITLE_WIDTH as int) {
            Some(truncated(issue.title, TITLE_WIDTH as int))
        } else {
            None
        },
        priority: issue.priority,
        created_at: issue.created_at,
    }
}

/// The issues that `run` lists: those that have the status and the priority
/// that are named and carry the label, in order of creation. A name that
/// names no status, or no priority, fits no issue.
pub open spec fn listed(
    store: StoreView,
    status: Option<Seq<char>>,
    label: Option<Seq<char>>,
    priority: Option<Seq<char>>,
) -> Seq<IssueView> {
    if (status matches Some(name) && status_named(name) is None) || (priority matches Some(name)
        && priority_named(name) is None) {
        Seq::empty()
    } else {
        store.list_issues(
            match status {
                Some(name) => status_named(name),
                None => None,
            },
            label,
            match priority {
                Some(name) => priority_named(name),
                None => None,
            },
        )
    }
}

/// The values of rows.
pub open spec fn row_views(rows: Seq<Row>) -> Seq<RowView> {
    rows.map_values(|row: Row| row@)
}

/// Shows `issue` as a row.
fn row(issue: &Issue) -> (row: Row)
    ensures
        row@ == row_of(issue@),
{
    Row {
        id: issue.id,
        status: issue.status,
        title: try_truncate(issue.title.as_str(), TITLE_WIDTH),
        priority: issue.priority,
        created_at: issue.created_at,
    }
}

/// Lists the issues that pass the filters that are given, one row each, in
/// order of creation.
pub fn run(store: &Store, status: Option<&str>, label: Option<&str>, priority: Option<&str>) -> (rows:
    Vec<Row>)
    ensures
        row_views(rows@) == listed(
            store@,
            status.deep_view(),
            label.deep_view(),
            priority.deep_view(),
        ).map_values(|issue: IssueView| row_of(issue)),
{
    let mut rows: Vec<Row> = Vec::new();
    let ghost wanted = listed(store@, status.deep_view(), label.deep_view(), priority.deep_view());
    let wanted_status = match status {
        Some(name) => match IssueStatus::parse(name) {
            Some(s) => Some(s),
            None => {
                assert(row_views(rows@) =~= wanted.map_values(|issue: IssueView| row_of(issue)));
                return rows;
            },
        },
        None => None,
    };
    let wanted_priority = match priority {
        Some(name) => match Priority::parse(name) {
            Some(p) => Some(p),
            None => {
                assert(row_views(rows@) =~= wanted.map_values(|issue: IssueView| row_of(issue)));
                return rows;
            },
        },
        None => None,
    };
    let issues = store.list_issues(wanted_status, label, wanted_priority);
    let mut k: usize = 0;
    while k < issues.len()
        invariant
            k <= issues.len(),
            issue_views(issues@) == wanted,
            rows@.len() == k,
            forall|j: int| 0 <= j < k ==> (#[trigger] rows@[j])@ == row_of(wanted[j]),
        decreases issues.len() - k,
    {
        let next = row(issues[k]);
        assert(issue_views(issues@)[k as int] == issues@[k as int]@);
        rows.push(next);
        k += 1;
    }
    assert(row_views(rows@) =~= wanted.map_values(|issue: IssueView| row_of(issue)));
    rows
}

} // verus!
