use chainlink::commands::session::{
    end, start, status, work, Ended, Handoff, NowWorking, SessionError, SessionStatus,
    StartOutcome, WorkingOn,
};
use chainlink::store::{Priority, Store};

fn store_with_issues(count: i64) -> Store {
    let mut store = Store::new();
    for n in 1..=count {
        let title = format!("issue {}", n);
        assert_eq!(store.create_issue(&title, None, Priority::Medium, 10), Some(n));
    }
    store
}

fn active_sessions(store: &Store) -> usize {
    store.sessions().iter().filter(|s| s.ended_at.is_none()).count()
}

#[test]
fn start_creates_the_first_session() {
    let mut store = Store::new();
    let outcome = start(&mut store, 1_000);
    assert_eq!(outcome, Ok(StartOutcome::Started { id: 1, previous: None }));
    let current = store.get_current_session().unwrap();
    assert_eq!(current.id, 1);
    assert_eq!(current.started_at, 1_000);
    assert_eq!(current.ended_at, None);
    assert_eq!(current.active_issue_id, None);
    assert_eq!(current.handoff_notes, None);
}

#[test]
fn start_while_active_changes_nothing() {
    let mut store = store_with_issues(3);
    assert!(start(&mut store, 1_000).is_ok());
    assert!(work(&mut store, 2).is_ok());
    let before = store.sessions().clone();
    let outcome = start(&mut store, 5_000);
    assert_eq!(outcome, Ok(StartOutcome::AlreadyActive { id: 1, started_at: 1_000 }));
    assert_eq!(store.sessions(), &before);
    let current = store.get_current_session().unwrap();
    assert_eq!(current.started_at, 1_000);
    assert_eq!(current.active_issue_id, Some(2));
}

#[test]
fn end_without_session_fails_and_creates_no_record() {
    let mut store = Store::new();
    assert_eq!(end(&mut store, Some("notes"), 10), Err(SessionError::NoActiveSession));
    assert!(store.sessions().is_empty());
    assert!(start(&mut store, 20).is_ok());
    assert!(end(&mut store, None, 30).is_ok());
    let before = store.sessions().clone();
    assert_eq!(end(&mut store, Some("again"), 40), Err(SessionError::NoActiveSession));
    assert_eq!(store.sessions(), &before);
}

#[test]
fn at_most_one_session_is_active_after_any_calls() {
    let mut store = store_with_issues(2);
    assert_eq!(active_sessions(&store), 0);
    let calls = [0, 0, 1, 1, 0, 2, 0, 1, 0, 0, 2, 1, 1, 0];
    let mut now = 100;
    for call in calls {
        now += 7;
        match call {
            0 => {
                let _ = start(&mut store, now);
            }
            1 => {
                let _ = end(&mut store, Some("n"), now);
            }
            _ => {
                let _ = work(&mut store, 1);
            }
        }
        assert!(active_sessions(&store) <= 1);
    }
    let ids: Vec<i64> = store.sessions().iter().map(|s| s.id).collect();
    assert_eq!(ids, vec![1, 2, 3, 4]);
}

#[test]
fn end_records_time_and_notes() {
    let mut store = Store::new();
    assert!(start(&mut store, 100).is_ok());
    assert_eq!(end(&mut store, Some("left off at the parser"), 250), Ok(Ended { id: 1, notes_saved: true }));
    assert_eq!(store.get_current_session(), None);
    let last = store.get_last_session().unwrap();
    assert_eq!(last.id, 1);
    assert_eq!(last.started_at, 100);
    assert_eq!(last.ended_at, Some(250));
    assert_eq!(last.handoff_notes.as_deref(), Some("left off at the parser"));
    assert!(start(&mut store, 300).is_ok());
    assert_eq!(end(&mut store, None, 400), Ok(Ended { id: 2, notes_saved: false }));
    assert_eq!(store.get_last_session().unwrap().handoff_notes, None);
}

#[test]
fn work_sets_and_overwrites_the_issue() {
    let mut store = store_with_issues(3);
    assert!(start(&mut store, 100).is_ok());
    assert_eq!(
        work(&mut store, 1),
        Ok(NowWorking { id: 1, title: "issue 1".to_string() })
    );
    assert_eq!(store.get_current_session().unwrap().active_issue_id, Some(1));
    assert_eq!(
        work(&mut store, 3),
        Ok(NowWorking { id: 3, title: "issue 3".to_string() })
    );
    assert_eq!(store.get_current_session().unwrap().active_issue_id, Some(3));
    assert_eq!(work(&mut store, 99), Err(SessionError::IssueNotFound(99)));
    assert_eq!(store.get_current_session().unwrap().active_issue_id, Some(3));
    assert_eq!(store.get_current_session().unwrap().started_at, 100);
}

#[test]
fn work_twice_on_one_issue_succeeds() {
    let mut store = store_with_issues(1);
    assert!(start(&mut store, 100).is_ok());
    assert!(work(&mut store, 1).is_ok());
    let before = store.sessions().clone();
    assert!(work(&mut store, 1).is_ok());
    assert_eq!(store.sessions(), &before);
}

#[test]
fn work_without_session_fails_first() {
    let mut store = store_with_issues(1);
    assert_eq!(work(&mut store, 1), Err(SessionError::NoActiveSession));
    assert_eq!(work(&mut store, 99), Err(SessionError::NoActiveSession));
    assert!(store.sessions().is_empty());
}

#[test]
fn ended_session_is_never_changed() {
    let mut store = store_with_issues(2);
    assert!(start(&mut store, 100).is_ok());
    assert!(work(&mut store, 1).is_ok());
    assert!(end(&mut store, Some("done"), 200).is_ok());
    let ended = store.sessions()[0].clone();
    assert_eq!(work(&mut store, 2), Err(SessionError::NoActiveSession));
    assert!(start(&mut store, 300).is_ok());
    assert!(work(&mut store, 2).is_ok());
    assert!(end(&mut store, None, 400).is_ok());
    assert_eq!(store.sessions()[0], ended);
    assert!(!store.end_session(1, Some("late".to_string()), 500));
    assert!(!store.set_session_issue(1, 2));
    assert_eq!(store.sessions()[0], ended);
}

#[test]
fn handoff_notes_reach_the_next_session() {
    let mut store = store_with_issues(7);
    assert_eq!(start(&mut store, 100), Ok(StartOutcome::Started { id: 1, previous: None }));
    assert!(work(&mut store, 7).is_ok());
    assert!(end(&mut store, Some("handoff text"), 200).is_ok());
    let outcome = start(&mut store, 300);
    assert_eq!(
        outcome,
        Ok(StartOutcome::Started {
            id: 2,
            previous: Some(Handoff { ended_at: Some(200), notes: Some("handoff text".to_string()) }),
        })
    );
    assert_eq!(store.get_current_session().unwrap().active_issue_id, None);
}

#[test]
fn empty_notes_are_not_handed_on() {
    let mut store = Store::new();
    assert!(start(&mut store, 100).is_ok());
    assert!(end(&mut store, Some(""), 200).is_ok());
    assert_eq!(
        start(&mut store, 300),
        Ok(StartOutcome::Started {
            id: 2,
            previous: Some(Handoff { ended_at: Some(200), notes: None }),
        })
    );
    assert!(end(&mut store, None, 400).is_ok());
    assert_eq!(
        start(&mut store, 500),
        Ok(StartOutcome::Started {
            id: 3,
            previous: Some(Handoff { ended_at: Some(400), notes: None }),
        })
    );
}

#[test]
fn status_without_session_is_inactive() {
    let store = Store::new();
    assert_eq!(status(&store, 100), SessionStatus::Inactive);
}

#[test]
fn status_reports_minutes_and_issue() {
    let mut store = store_with_issues(2);
    assert!(start(&mut store, 1_000).is_ok());
    assert_eq!(
        status(&store, 1_000 + 125),
        SessionStatus::Active {
            id: 1,
            started_at: 1_000,
            elapsed_minutes: 2,
            working_on: WorkingOn::Nothing,
        }
    );
    assert!(work(&mut store, 2).is_ok());
    assert_eq!(
        status(&store, 1_000 + 3_600),
        SessionStatus::Active {
            id: 1,
            started_at: 1_000,
            elapsed_minutes: 60,
            working_on: WorkingOn::Issue { id: 2, title: "issue 2".to_string() },
        }
    );
    assert!(store.delete_issue(2));
    assert_eq!(
        status(&store, 1_059),
        SessionStatus::Active {
            id: 1,
            started_at: 1_000,
            elapsed_minutes: 0,
            working_on: WorkingOn::Missing { id: 2 },
        }
    );
}

#[test]
fn status_rounds_minutes_towards_zero() {
    let mut store = Store::new();
    assert!(start(&mut store, 1_000).is_ok());
    let minutes = |now: i64| match status(&store, now) {
        SessionStatus::Active { elapsed_minutes, .. } => elapsed_minutes,
        SessionStatus::Inactive => panic!("a session is active"),
    };
    assert_eq!(minutes(1_000), 0);
    assert_eq!(minutes(1_059), 0);
    assert_eq!(minutes(1_060), 1);
    assert_eq!(minutes(941), 0);
    assert_eq!(minutes(940), -1);
    assert_eq!(minutes(880), -2);
    assert_eq!(minutes(i64::MAX), (i64::MAX - 1_000) / 60);
    assert_eq!(minutes(i64::MIN), -153_722_867_280_912_946);
}

#[test]
fn start_fails_when_ids_are_used_up() {
    let sessions = vec![chainlink::store::Session {
        id: i64::MAX,
        started_at: 1,
        ended_at: Some(2),
        active_issue_id: None,
        handoff_notes: None,
    }];
    let mut store = Store::from_records(Vec::new(), sessions).unwrap();
    assert_eq!(start(&mut store, 10), Err(SessionError::StoreFull));
    assert_eq!(store.sessions().len(), 1);
}
