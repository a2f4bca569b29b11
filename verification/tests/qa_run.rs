use backend::timestamp::Timestamp;
use backend::domain::qa_run::RunEvent;
use backend::domain::{FigmaFileKey, FigmaNodeId, NewQaRun, QaRun, RunStateError, RunStatus, TargetUrl};
use chrono::Utc;
use uuid::Uuid;

fn now() -> Timestamp {
    let t = Utc::now();
    Timestamp { secs: t.timestamp(), nanos: t.timestamp_subsec_nanos() }
}

// Built from its parts on purpose, so that the fields are not validated.
fn test_run(status: RunStatus) -> QaRun {
    QaRun::from_parts(
        Uuid::new_v4(),
        Uuid::new_v4(),
        "https://example.com".to_string(),
        "abc123".to_string(),
        "1:1".to_string(),
        status,
        now(),
        None,
        None,
    )
}

#[test]
fn pending_cannot_complete() {
    let mut run = test_run(RunStatus::Pending);
    let result = run.complete();

    assert!(result.is_err());
    assert_eq!(run.status(), RunStatus::Pending);
}

#[test]
fn pending_can_start() {
    let mut run = test_run(RunStatus::Pending);
    let result = run.start();

    assert!(result.is_ok());
    assert_eq!(run.status(), RunStatus::Running);
    assert!(run.started_at().is_some());
}

#[test]
fn transition_from_pending_to_completed() {
    let mut run = test_run(RunStatus::Pending);

    assert!(run.start().is_ok());
    assert_eq!(run.status(), RunStatus::Running);

    assert!(run.complete().is_ok());
    assert_eq!(run.status(), RunStatus::Completed);
}

#[test]
fn transition_from_running_to_failed() {
    let mut run = test_run(RunStatus::Pending);

    run.start().unwrap();

    assert!(run.fail().is_ok());
    assert_eq!(run.status(), RunStatus::Failed);
    assert!(run.completed_at().is_some());
}

#[test]
fn refusals_name_the_status() {
    let mut run = test_run(RunStatus::Running);
    assert_eq!(run.start(), Err(RunStateError::CannotStart(RunStatus::Running)));
    let mut done = test_run(RunStatus::Completed);
    assert_eq!(done.complete(), Err(RunStateError::CannotComplete(RunStatus::Completed)));
    let mut pending = test_run(RunStatus::Pending);
    assert_eq!(pending.fail(), Err(RunStateError::CannotFail(RunStatus::Pending)));
    assert_eq!(pending.started_at(), None);
    assert_eq!(pending.completed_at(), None);
}

#[test]
fn finished_runs_refuse_everything() {
    for status in [RunStatus::Completed, RunStatus::Failed] {
        let mut run = test_run(status);
        assert_eq!(run.start(), Err(RunStateError::CannotStart(status)));
        assert_eq!(run.complete(), Err(RunStateError::CannotComplete(status)));
        assert_eq!(run.fail(), Err(RunStateError::CannotFail(status)));
        assert_eq!(run.status(), status);
        assert_eq!(run.started_at(), None);
        assert_eq!(run.completed_at(), None);
    }
}

#[test]
fn timestamps_come_from_the_given_instant() {
    let mut run = test_run(RunStatus::Pending);
    let t1 = Timestamp { secs: 1_700_000_000, nanos: 5 };
    let t2 = Timestamp { secs: 1_700_000_060, nanos: 0 };
    assert_eq!(run.apply_at(RunEvent::Start, t1), Ok(()));
    assert_eq!(run.started_at(), Some(t1));
    assert_eq!(run.apply_at(RunEvent::Start, t2), Err(RunStateError::CannotStart(RunStatus::Running)));
    assert_eq!(run.started_at(), Some(t1));
    assert_eq!(run.apply_at(RunEvent::Complete, t2), Ok(()));
    assert_eq!(run.completed_at(), Some(t2));
    assert_eq!(run.started_at(), Some(t1));
}

#[test]
fn new_run_is_pending_and_copies_the_request() {
    let project_id = Uuid::new_v4();
    let new_run = NewQaRun {
        project_id,
        target_url: TargetUrl::parse("https://example.com".to_string()).unwrap(),
        figma_file_key: FigmaFileKey::parse("aBcD1234EfGh5678IjKl".to_string()).unwrap(),
        figma_node_id: FigmaNodeId::parse("2345:2366".to_string()).unwrap(),
    };
    let run_id = Uuid::new_v4();
    let run = QaRun::new(new_run, run_id);
    assert_eq!(run.run_id, run_id);
    assert_eq!(run.project_id, project_id);
    assert_eq!(run.target_url, "https://example.com");
    assert_eq!(run.figma_file_key, "aBcD1234EfGh5678IjKl");
    assert_eq!(run.figma_node_id, "2345:2366");
    assert_eq!(run.status(), RunStatus::Pending);
    assert_eq!(run.started_at(), None);
    assert_eq!(run.completed_at(), None);
    assert!(run.created_at.nanos < 1_000_000_000);
    assert!(run.created_at.secs > 1_600_000_000);
}

#[test]
fn new_at_uses_the_given_id_and_time() {
    let id = Uuid::new_v4();
    let at = Timestamp { secs: 42, nanos: 7 };
    let new_run = NewQaRun {
        project_id: Uuid::nil(),
        target_url: TargetUrl::parse("http://a.example".to_string()).unwrap(),
        figma_file_key: FigmaFileKey::parse("0123456789".to_string()).unwrap(),
        figma_node_id: FigmaNodeId::parse("1:2".to_string()).unwrap(),
    };
    let run = QaRun::new_at(new_run, id, at);
    assert_eq!(run.run_id, id);
    assert_eq!(run.created_at, at);
    assert_eq!(run.project_id, Uuid::nil());
}

#[test]
fn status_names_read_back() {
    for status in [RunStatus::Pending, RunStatus::Running, RunStatus::Completed, RunStatus::Failed] {
        assert_eq!(RunStatus::from_name(status.as_str()), Some(status));
    }
    assert_eq!(RunStatus::Pending.as_str(), "pending");
    assert_eq!(RunStatus::Completed.as_str(), "completed");
    assert_eq!(RunStatus::from_name("Pending"), None);
    assert_eq!(RunStatus::from_name(""), None);
}

#[test]
fn clock_stamps_have_sub_second_nanos() {
    let mut run = test_run(RunStatus::Pending);
    run.start().unwrap();
    let started = run.started_at().unwrap();
    assert!(started.nanos < 1_000_000_000);
    run.fail().unwrap();
    assert!(run.completed_at().unwrap().nanos < 1_000_000_000);
}
