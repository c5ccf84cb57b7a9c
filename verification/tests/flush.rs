use chainlink::commands::session::{end, start, work, Handoff, StartOutcome};
use chainlink::daemon::flush::{
    run_daemon, FlushAction, FlushEvent, FlushLog, FlushLoop, FLUSH_INTERVAL_SECS,
};
use chainlink::daemon::snapshot::{printed, snapshot, SnapshotError};
use chainlink::store::{Priority, Session, Store};

fn session(id: i64, started_at: i64, active_issue_id: Option<i64>) -> Session {
    Session { id, started_at, ended_at: None, active_issue_id, handoff_notes: None }
}

fn rest(log: FlushLog) -> (FlushLoop, FlushAction) {
    (FlushLoop::Sleeping, FlushAction::Sleep { seconds: 30, log })
}

#[test]
fn snapshot_is_a_pretty_object() {
    let text = snapshot(&session(1, 1_700_000_000, Some(7))).unwrap();
    assert_eq!(
        text,
        "{\n  \"active_issue_id\": 7,\n  \"session_id\": 1,\n  \"started_at\": \"2023-11-14T22:13:20+00:00\"\n}"
    );
}

#[test]
fn snapshot_without_issue_holds_null() {
    let text = snapshot(&session(12, 0, None)).unwrap();
    assert_eq!(
        text,
        "{\n  \"active_issue_id\": null,\n  \"session_id\": 12,\n  \"started_at\": \"1970-01-01T00:00:00+00:00\"\n}"
    );
}

#[test]
fn snapshot_parses_back() {
    let text = snapshot(&session(-3, -86_400, Some(i64::MAX))).unwrap();
    let value: serde_json::Value = serde_json::from_str(&text).unwrap();
    let object = value.as_object().unwrap();
    assert_eq!(object.len(), 3);
    assert_eq!(object["session_id"].as_i64(), Some(-3));
    assert_eq!(object["active_issue_id"].as_i64(), Some(i64::MAX));
    assert_eq!(object["started_at"].as_str(), Some("1969-12-31T00:00:00+00:00"));
    let time = chrono::DateTime::parse_from_rfc3339(object["started_at"].as_str().unwrap()).unwrap();
    assert_eq!(time.timestamp(), -86_400);
}

#[test]
fn snapshot_fails_on_a_time_out_of_range() {
    assert_eq!(snapshot(&session(1, i64::MAX, None)), Err(SnapshotError::TimeOutOfRange));
    assert_eq!(snapshot(&session(1, i64::MIN, None)), Err(SnapshotError::TimeOutOfRange));
}

#[test]
fn printed_keeps_text_and_names_the_failure() {
    assert_eq!(printed(Ok("{}".to_string())), Ok("{}".to_string()));
    let failure = serde_json::from_str::<serde_json::Value>("{").unwrap_err();
    assert_eq!(printed(Err(failure)), Err(SnapshotError::NotPrinted));
}

#[test]
fn flush_interval_is_thirty_seconds() {
    assert_eq!(FLUSH_INTERVAL_SECS, 30);
}

#[test]
fn loop_leaves_a_directory_without_store() {
    let (state, action) = run_daemon();
    assert_eq!(state, FlushLoop::Validating);
    assert_eq!(action, FlushAction::CheckStore);
    assert_eq!(state.step(&FlushEvent::Woke), (FlushLoop::Validating, FlushAction::CheckStore));
    let (state, action) = state.step(&FlushEvent::StoreChecked(false));
    assert_eq!(state, FlushLoop::Stopped);
    assert_eq!(action, FlushAction::Exit);
    assert_eq!(state.step(&FlushEvent::Woke), (FlushLoop::Stopped, FlushAction::Exit));
    assert_eq!(
        state.step(&FlushEvent::StoreChecked(true)),
        (FlushLoop::Stopped, FlushAction::Exit)
    );
}

#[test]
fn loop_sleeps_then_reads() {
    let (state, _) = run_daemon();
    let (state, action) = state.step(&FlushEvent::StoreChecked(true));
    assert_eq!((state, action), rest(FlushLog::Ready));
    let (state, action) = state.step(&FlushEvent::Woke);
    assert_eq!(state, FlushLoop::Reading);
    assert_eq!(action, FlushAction::ReadSession);
}

#[test]
fn cycle_without_session_is_silent() {
    assert_eq!(FlushLoop::Reading.step(&FlushEvent::SessionRead(None)), rest(FlushLog::Idle));
}

#[test]
fn failed_cycles_go_back_to_sleep() {
    assert_eq!(
        FlushLoop::Reading.step(&FlushEvent::StoreUnreadable),
        rest(FlushLog::StoreUnreadable)
    );
    assert_eq!(
        FlushLoop::Reading.step(&FlushEvent::SessionRead(Some(session(1, i64::MAX, None)))),
        rest(FlushLog::SnapshotFailed(SnapshotError::TimeOutOfRange))
    );
    assert_eq!(FlushLoop::Writing.step(&FlushEvent::Written(false)), rest(FlushLog::WriteFailed));
    assert_eq!(FlushLoop::Writing.step(&FlushEvent::Written(true)), rest(FlushLog::Flushed));
    assert_eq!(FlushLoop::Writing.step(&FlushEvent::Woke), rest(FlushLog::OutOfTurn));
    assert_eq!(FlushLoop::Reading.step(&FlushEvent::Written(true)), rest(FlushLog::OutOfTurn));
    assert_eq!(FlushLoop::Sleeping.step(&FlushEvent::StoreUnreadable), rest(FlushLog::OutOfTurn));
}

#[test]
fn loop_never_stops_once_it_runs() {
    let events = [
        FlushEvent::StoreChecked(false),
        FlushEvent::Woke,
        FlushEvent::StoreUnreadable,
        FlushEvent::Woke,
        FlushEvent::SessionRead(None),
        FlushEvent::Written(false),
        FlushEvent::Woke,
        FlushEvent::SessionRead(Some(session(1, 5, None))),
        FlushEvent::Written(false),
        FlushEvent::StoreChecked(false),
        FlushEvent::Woke,
        FlushEvent::Woke,
    ];
    let mut state = FlushLoop::Sleeping;
    for event in &events {
        let (next, action) = state.step(event);
        assert!(next != FlushLoop::Stopped && next != FlushLoop::Validating);
        assert!(action != FlushAction::Exit);
        if let FlushAction::Sleep { seconds, .. } = action {
            assert_eq!(seconds, 30);
        }
        state = next;
    }
}

#[test]
fn flush_writes_the_session_that_is_worked_on() {
    let mut store = Store::new();
    for n in 1..=7 {
        assert_eq!(store.create_issue("an issue", None, Priority::Low, 1), Some(n));
    }
    assert_eq!(
        start(&mut store, 1_700_000_000),
        Ok(StartOutcome::Started { id: 1, previous: None })
    );
    assert!(work(&mut store, 7).is_ok());

    let (state, _) = run_daemon();
    let (state, _) = state.step(&FlushEvent::StoreChecked(true));
    let (state, action) = state.step(&FlushEvent::Woke);
    assert_eq!(action, FlushAction::ReadSession);
    let read = FlushEvent::SessionRead(store.get_current_session().cloned());
    let (state, action) = state.step(&read);
    assert_eq!(state, FlushLoop::Writing);
    let text = match action {
        FlushAction::WriteSnapshot(text) => text,
        other => panic!("no snapshot was written: {:?}", other),
    };
    let value: serde_json::Value = serde_json::from_str(&text).unwrap();
    assert_eq!(value["active_issue_id"].as_i64(), Some(7));
    assert_eq!(value["session_id"].as_i64(), Some(store.get_current_session().unwrap().id));
    assert_eq!(value["started_at"].as_str(), Some("2023-11-14T22:13:20+00:00"));
    assert_eq!(state.step(&FlushEvent::Written(true)), rest(FlushLog::Flushed));

    assert!(end(&mut store, Some("handoff text"), 1_700_000_500).is_ok());
    assert_eq!(
        start(&mut store, 1_700_000_900),
        Ok(StartOutcome::Started {
            id: 2,
            previous: Some(Handoff {
                ended_at: Some(1_700_000_500),
                notes: Some("handoff text".to_string()),
            }),
        })
    );
}
