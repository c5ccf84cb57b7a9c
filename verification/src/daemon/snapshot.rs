//! The session snapshot: the active session as a pretty-printed JSON object
//! with the members `session_id`, `started_at` and `active_issue_id`.

use crate::store::{Session, SessionView};
use vstd::prelude::*;

verus! {

/// A JSON value without parts: what a member of the snapshot can hold.
pub enum Scalar {
    Null,
    Integer(int),
    Text(Seq<char>),
}

/// A member of the snapshot, before it is handed to the printer.
pub enum Member {
    Null,
    Integer(i64),
    Text(String),
}

impl View for Member {
    type V = Scalar;

    open spec fn view(&self) -> Scalar {
        match self {
            Member::Null => Scalar::Null,
            Member::Integer(n) => Scalar::Integer(*n as int),
            Member::Text(text) => Scalar::Text(text@),
        }
    }
}

/// `serde_json::Value`, carried as it is: nothing is known of what is
/// inside one.
#[verifier::external_type_specification]
#[verifier::external_body]
pub struct ExJsonValue(serde_json::Value);

/// `serde_json::Map`, known only through `json_members`.
#[verifier::external_type_specification]
#[verifier::external_body]
#[verifier::reject_recursive_types(K)]
#[verifier::reject_recursive_types(V)]
pub struct ExJsonMap<K, V>(serde_json::Map<K, V>);

/// `serde_json::Error`, carried as it is.
#[verifier::external_type_specification]
#[verifier::external_body]
pub struct ExJsonError(serde_json::Error);

/// The members that a `serde_json::Map` holds, by name.
pub uninterp spec fn json_members(object: serde_json::Map<String, serde_json::Value>) -> Map<
    Seq<char>,
    Scalar,
>;

/// The text that `serde_json::to_string_pretty` gives for an object with
/// these members, or `None` where it fails.
pub uninterp spec fn pretty_object(members: Map<Seq<char>, Scalar>) -> Option<Seq<char>>;

/// The text that `chrono::DateTime::<Utc>::to_rfc3339` gives for the point
/// in time `seconds` after the Unix epoch, or `None` where chrono cannot
/// represent that time.
pub uninterp spec fn rfc3339_text(seconds: i64) -> Option<Seq<char>>;

/// No members at all.
pub open spec fn no_members() -> Map<Seq<char>, Scalar> {
    Map::empty()
}

/// `serde_json::Map::new`: a map that holds no member.
#[verifier::external_body]
fn object_new() -> (object: serde_json::Map<String, serde_json::Value>)
    ensures
        json_members(object) == no_members(),
{
    serde_json::Map::new()
}

/// `serde_json::Map::insert` of the `Value` that holds `member`: afterwards
/// the map holds it under `name`, and under every other name what it held
/// before.
#[verifier::external_body]
fn insert(object: &mut serde_json::Map<String, serde_json::Value>, name: &str, member: Member)
    ensures
        json_members(*final(object)) == json_members(*old(object)).insert(name@, member@),
{
    let value = match member {
        Member::Null => serde_json::Value::Null,
        Member::Integer(n) => serde_json::Value::from(n),
        Member::Text(text) => serde_json::Value::from(text),
    };
    object.insert(name.to_owned(), value);
}

/// `serde_json::to_string_pretty` on a map: the text depends on the members
/// alone. Nothing is claimed of when it succeeds.
#[verifier::external_body]
fn to_pretty(object: &serde_json::Map<String, serde_json::Value>) -> (text: Result<
    String,
    serde_json::Error,
>)
    ensures
        text matches Ok(t) ==> pretty_object(json_members(*object)) == Some(t@),
        text is Err ==> pretty_object(json_members(*object)) is None,
{
    serde_json::to_string_pretty(object)
}

/// `chrono::DateTime::from_timestamp` with no nanoseconds, then
/// `to_rfc3339`: the text depends on the seconds alone, and there is none
/// where chrono cannot represent the time.
#[verifier::external_body]
fn rfc3339(seconds: i64) -> (text: Option<String>)
    ensures
        text.deep_view() == rfc3339_text(seconds),
{
    match chrono::DateTime::from_timestamp(seconds, 0) {
        Some(time) => Some(time.to_rfc3339()),
        None => None,
    }
}

/// The members of the snapshot of a session that started at the time
/// written as `started_at`.
pub open spec fn snapshot_members(
    session_id: i64,
    started_at: Seq<char>,
    active_issue_id: Option<i64>,
) -> Map<Seq<char>, Scalar> {
    no_members().insert(
        "session_id"@,
        Scalar::Integer(session_id as int),
    ).insert("started_at"@, Scalar::Text(started_at)).insert(
        "active_issue_id"@,
        match active_issue_id {
            Some(id) => Scalar::Integer(id as int),
            None => Scalar::Null,
        },
    )
}

/// The text of the snapshot of `session`, or `None` where its start cannot
/// be written as a date or the object cannot be printed.
pub open spec fn snapshot_text(session: SessionView) -> Option<Seq<char>> {
    match rfc3339_text(session.started_at) {
        Some(started_at) => pretty_object(
            snapshot_members(session.id, started_at, session.active_issue_id),
        ),
        None => None,
    }
}

/// Why no snapshot could be made.
#[derive(Clone, Copy, Debug, PartialEq, Eq, Structural)]
pub enum SnapshotError {
    /// The start of the session is no date that can be written.
    TimeOutOfRange,
    /// The object could not be printed.
    NotPrinted,
}

/// Turns what the printer gave into the snapshot or its error.
pub fn printed(text: Result<String, serde_json::Error>) -> (snapshot: Result<String, SnapshotError>)
    ensures
        match text {
            Ok(t) => snapshot matches Ok(s) && s@ == t@,
            Err(_) => snapshot == Err::<String, SnapshotError>(SnapshotError::NotPrinted),
        },
{
    match text {
        Ok(t) => Ok(t),
        Err(_) => Err(SnapshotError::NotPrinted),
    }
}

/// Writes the snapshot of `session`: a pretty-printed JSON object with its id
/// as `session_id`, its start as `started_at` in RFC 3339, and its issue, or
/// `null`, as `active_issue_id`.
pub fn snapshot(session: &Session) -> (text: Result<String, SnapshotError>)
    ensures
        match text {
            Ok(t) => snapshot_text(session@) == Some(t@),
            Err(SnapshotError::TimeOutOfRange) => rfc3339_text(session.started_at) is None,
            Err(SnapshotError::NotPrinted) => rfc3339_text(session.started_at) is Some
                && snapshot_text(session@) is None,
        },
{
    let started_at = match rfc3339(session.started_at) {
        Some(text) => text,
        None => {
            return Err(SnapshotError::TimeOutOfRange);
        },
    };
    let mut object = object_new();
    insert(&mut object, "session_id", Member::Integer(session.id));
    insert(&mut object, "started_at", Member::Text(started_at));
    insert(
        &mut object,
        "active_issue_id",
        match session.active_issue_id {
            Some(id) => Member::Integer(id),
            None => Member::Null,
        },
    );
    printed(to_pretty(&object))
}

} // verus!
