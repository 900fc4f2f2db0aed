use terradrift::fetch::{fetch_from_directory, task_error_of};
use terradrift::plan::{detect_drift, DriftReport};
use terradrift::scheduler::{
    concurrency_limit, drift_count, exit_code, resolve_concurrency, ScanError, Scheduler,
    SchedulerAction, TaskError, WorkspaceResult, EXIT_CLEAN, EXIT_DRIFT, EXIT_FAILURE,
};

const UPDATE: &[u8] = b"{\"resource_changes\":[{\"change\":{\"actions\":[\"update\"]}}]}\n";

fn names(list: &[&str]) -> Vec<String> {
    list.iter().map(|s| s.to_string()).collect()
}

fn clean() -> DriftReport {
    detect_drift(b"", Some(0), 3, Some("1.7.5".to_string()))
}

fn drifted() -> DriftReport {
    detect_drift(UPDATE, Some(2), 9, Some("1.7.5".to_string()))
}

#[test]
fn clean_scan_of_two_workspaces() {
    let mut scan = Scheduler::new(names(&["ws1", "ws2"]), 2);
    assert_eq!(scan.next(), SchedulerAction::Start(0));
    assert_eq!(scan.next(), SchedulerAction::Start(1));
    assert_eq!(scan.next(), SchedulerAction::Wait);
    scan.complete(1, Ok(clean()));
    scan.complete(0, Ok(clean()));
    assert_eq!(scan.next(), SchedulerAction::Finish);
    let outcome = scan.outcome().unwrap();
    let results = outcome.clone().unwrap();
    assert_eq!(results.len(), 2);
    assert_eq!(
        results[0],
        WorkspaceResult {
            workspace: "ws1".to_string(),
            drift: false,
            changed_resources: 0,
            duration_ms: 3,
        }
    );
    assert_eq!(results[1].workspace, "ws2");
    assert!(!results[1].drift);
    assert_eq!(drift_count(&results), 0);
    assert_eq!(exit_code(&outcome), EXIT_CLEAN);
    assert_eq!(exit_code(&outcome), 0);
}

#[test]
fn single_drifted_workspace() {
    let mut scan = Scheduler::new(names(&["ws_clean", "ws_drift"]), 2);
    assert_eq!(scan.next(), SchedulerAction::Start(0));
    assert_eq!(scan.next(), SchedulerAction::Start(1));
    scan.complete(0, Ok(clean()));
    scan.complete(1, Ok(drifted()));
    let outcome = scan.outcome().unwrap();
    let results = outcome.clone().unwrap();
    assert_eq!(
        results,
        vec![
            WorkspaceResult {
                workspace: "ws_clean".to_string(),
                drift: false,
                changed_resources: 0,
                duration_ms: 3,
            },
            WorkspaceResult {
                workspace: "ws_drift".to_string(),
                drift: true,
                changed_resources: 1,
                duration_ms: 9,
            },
        ]
    );
    assert_eq!(drift_count(&results), 1);
    assert_eq!(exit_code(&outcome), EXIT_DRIFT);
    assert_eq!(exit_code(&outcome), 2);
}

#[test]
fn missing_state_file_fails_the_scan() {
    let mut scan = Scheduler::new(names(&["ws1", "ghost", "ws3"]), 4);
    assert_eq!(scan.next(), SchedulerAction::Start(0));
    assert_eq!(scan.next(), SchedulerAction::Start(1));
    assert_eq!(scan.next(), SchedulerAction::Start(2));
    let fetched = fetch_from_directory("/states/ghost.tfstate".to_string(), false);
    let error = task_error_of(fetched.unwrap_err());
    assert_eq!(
        error,
        TaskError::StateNotFound("Mock tfstate file not found: /states/ghost.tfstate".to_string())
    );
    scan.complete(2, Ok(clean()));
    scan.complete(1, Err(error.clone()));
    assert_eq!(scan.outcome(), None);
    scan.complete(0, Ok(drifted()));
    let outcome = scan.outcome().unwrap();
    assert_eq!(outcome, Err(ScanError::Task { workspace: "ghost".to_string(), error }));
    assert_eq!(exit_code(&outcome), EXIT_FAILURE);
    assert_eq!(exit_code(&outcome), 1);
}

#[test]
fn first_failure_in_enumeration_order_is_reported() {
    let mut scan = Scheduler::new(names(&["a", "b", "c"]), 3);
    scan.next();
    scan.next();
    scan.next();
    scan.complete(2, Err(TaskError::Launch("late".to_string())));
    scan.complete(1, Err(TaskError::Fetch("denied".to_string())));
    scan.complete(0, Ok(clean()));
    assert_eq!(
        scan.outcome(),
        Some(Err(ScanError::Task {
            workspace: "b".to_string(),
            error: TaskError::Fetch("denied".to_string()),
        }))
    );
}

#[test]
fn never_more_running_than_the_limit() {
    let mut scan = Scheduler::new(names(&["a", "b", "c", "d", "e"]), 2);
    assert_eq!(scan.len(), 5);
    assert_eq!(scan.limit(), 2);
    let mut running: Vec<usize> = Vec::new();
    let mut started: Vec<usize> = Vec::new();
    loop {
        match scan.next() {
            SchedulerAction::Start(index) => {
                running.push(index);
                started.push(index);
            }
            SchedulerAction::Wait => {
                assert_eq!(running.len(), 2.min(5 - (started.len() - running.len())));
                let index = running.remove(running.len() - 1);
                scan.complete(index, Ok(clean()));
            }
            SchedulerAction::Blocked => panic!("a slot is free"),
            SchedulerAction::Finish => break,
        }
        assert!(scan.active() <= 2);
        assert_eq!(scan.active(), running.len());
    }
    assert_eq!(started, vec![0, 1, 2, 3, 4]);
    assert_eq!(scan.active(), 0);
    assert_eq!(scan.outcome().unwrap().unwrap().len(), 5);
}

#[test]
fn a_failed_scan_gives_its_slot_back() {
    let mut scan = Scheduler::new(names(&["a", "b"]), 1);
    assert_eq!(scan.next(), SchedulerAction::Start(0));
    assert_eq!(scan.next(), SchedulerAction::Wait);
    assert_eq!(scan.active(), 1);
    scan.complete(0, Err(TaskError::Launch("no such file".to_string())));
    assert_eq!(scan.active(), 0);
    assert_eq!(scan.next(), SchedulerAction::Start(1));
    scan.complete(1, Ok(clean()));
    assert_eq!(scan.next(), SchedulerAction::Finish);
    assert!(scan.outcome().unwrap().is_err());
}

#[test]
fn completion_of_what_does_not_run_changes_nothing() {
    let mut scan = Scheduler::new(names(&["a", "b"]), 1);
    scan.complete(0, Ok(drifted()));
    scan.complete(7, Ok(drifted()));
    assert_eq!(scan.active(), 0);
    assert_eq!(scan.next(), SchedulerAction::Start(0));
    scan.complete(1, Ok(drifted()));
    assert_eq!(scan.active(), 1);
    scan.complete(0, Ok(clean()));
    scan.complete(0, Ok(drifted()));
    assert_eq!(scan.next(), SchedulerAction::Start(1));
    scan.complete(1, Ok(clean()));
    assert_eq!(drift_count(&scan.outcome().unwrap().unwrap()), 0);
}

#[test]
fn no_workspaces_is_a_finished_clean_scan() {
    let mut scan = Scheduler::new(Vec::new(), 2);
    assert!(scan.is_finished());
    assert_eq!(scan.next(), SchedulerAction::Finish);
    let outcome = scan.outcome().unwrap();
    assert_eq!(outcome, Ok(Vec::new()));
    assert_eq!(exit_code(&outcome), 0);
    assert_eq!(scan.workspace(0), None);
}

#[test]
fn no_slots_admit_nobody() {
    let mut scan = Scheduler::new(names(&["a"]), 0);
    assert_eq!(scan.next(), SchedulerAction::Blocked);
    assert_eq!(scan.active(), 0);
    assert!(!scan.is_finished());
    assert_eq!(scan.outcome(), None);
    assert_eq!(scan.workspace(0), Some("a"));
}

#[test]
fn concurrency_is_resolved_in_order() {
    assert_eq!(resolve_concurrency(Some(7), Some(3), 16), 7);
    assert_eq!(resolve_concurrency(None, Some(3), 16), 3);
    assert_eq!(resolve_concurrency(None, None, 16), 16);
    assert_eq!(resolve_concurrency(None, None, 1), 2);
    assert_eq!(resolve_concurrency(None, None, 0), 2);
    assert_eq!(resolve_concurrency(None, None, 2), 2);
    assert_eq!(resolve_concurrency(Some(1), None, 8), 1);
    assert_eq!(resolve_concurrency(Some(0), Some(4), 8), 0);
    assert_eq!(concurrency_limit(Some(5), None), 5);
    assert_eq!(concurrency_limit(None, Some(1)), 1);
    assert!(concurrency_limit(None, None) >= 2);
}

#[test]
fn exit_code_tells_drift_from_failure() {
    let clean_result = WorkspaceResult {
        workspace: "a".to_string(),
        drift: false,
        changed_resources: 0,
        duration_ms: 1,
    };
    let drift_result = WorkspaceResult {
        workspace: "b".to_string(),
        drift: true,
        changed_resources: 0,
        duration_ms: 1,
    };
    assert_eq!(exit_code(&Ok(vec![])), 0);
    assert_eq!(exit_code(&Ok(vec![clean_result.clone(), clean_result.clone()])), 0);
    assert_eq!(exit_code(&Ok(vec![clean_result.clone(), drift_result.clone()])), 2);
    assert_eq!(drift_count(&vec![drift_result.clone(), clean_result, drift_result]), 2);
    assert_eq!(exit_code(&Err(ScanError::Binary("no network".to_string()))), 1);
    assert_eq!(exit_code(&Err(ScanError::Enumeration("unreachable".to_string()))), 1);
    assert_ne!(EXIT_DRIFT, EXIT_FAILURE);
    assert_ne!(EXIT_DRIFT, EXIT_CLEAN);
}
