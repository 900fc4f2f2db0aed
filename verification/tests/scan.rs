use terradrift::plan::detect_drift;
use terradrift::runtime::terraform_version;
use terradrift::source::workspace_from_file_name;
use terradrift::scan::{Scan, ScanAction};
use terradrift::scheduler::{exit_code, ScanError, TaskError};

fn names(list: &[&str]) -> Vec<String> {
    list.iter().map(|s| s.to_string()).collect()
}

#[test]
fn scan_resolves_then_enumerates_then_scans() {
    let mut scan = Scan::new(1);
    assert_eq!(scan.next(), ScanAction::ResolveBinary);
    assert_eq!(scan.next(), ScanAction::ResolveBinary);
    assert_eq!(scan.outcome(), None);
    scan.binary_resolved(None);
    assert_eq!(scan.next(), ScanAction::Enumerate);
    assert_eq!(scan.workspace(0), None);
    scan.enumerated(Ok(names(&["a", "b"])));
    assert_eq!(scan.workspace(1), Some("b"));
    assert_eq!(scan.next(), ScanAction::Start(0));
    assert_eq!(scan.next(), ScanAction::Wait);
    assert_eq!(scan.active(), 1);
    scan.complete(0, Ok(detect_drift(b"", Some(0), 1, None)));
    assert_eq!(scan.next(), ScanAction::Start(1));
    scan.complete(1, Ok(detect_drift(b"", Some(2), 1, None)));
    assert_eq!(scan.next(), ScanAction::Finish);
    let outcome = scan.outcome().unwrap();
    let results = outcome.clone().unwrap();
    assert_eq!(results.len(), 2);
    assert!(!results[0].drift);
    assert!(results[1].drift);
    assert_eq!(exit_code(&outcome), 2);
}

#[test]
fn scan_without_binary_starts_nothing() {
    let mut scan = Scan::new(4);
    scan.binary_resolved(Some("no network".to_string()));
    assert_eq!(scan.next(), ScanAction::Finish);
    scan.enumerated(Ok(names(&["a"])));
    scan.complete(0, Ok(detect_drift(b"", Some(0), 1, None)));
    assert_eq!(scan.next(), ScanAction::Finish);
    assert_eq!(scan.active(), 0);
    let outcome = scan.outcome().unwrap();
    assert_eq!(outcome, Err(ScanError::Binary("no network".to_string())));
    assert_eq!(exit_code(&outcome), 1);
}

#[test]
fn scan_without_enumeration_starts_nothing() {
    let mut scan = Scan::new(4);
    scan.enumerated(Err("too early".to_string()));
    assert_eq!(scan.next(), ScanAction::ResolveBinary);
    scan.binary_resolved(None);
    scan.enumerated(Err("backend unreachable".to_string()));
    assert_eq!(scan.next(), ScanAction::Finish);
    assert_eq!(
        scan.outcome(),
        Some(Err(ScanError::Enumeration("backend unreachable".to_string())))
    );
}

#[test]
fn scan_reports_the_failure_of_a_workspace() {
    let mut scan = Scan::new(2);
    scan.binary_resolved(None);
    scan.enumerated(Ok(names(&["a", "b"])));
    assert_eq!(scan.next(), ScanAction::Start(0));
    assert_eq!(scan.next(), ScanAction::Start(1));
    scan.binary_resolved(Some("late".to_string()));
    scan.complete(1, Err(TaskError::StateNotFound("b".to_string())));
    assert_eq!(scan.outcome(), None);
    scan.complete(0, Ok(detect_drift(b"", Some(0), 1, None)));
    assert_eq!(scan.next(), ScanAction::Finish);
    assert_eq!(
        scan.outcome(),
        Some(Err(ScanError::Task {
            workspace: "b".to_string(),
            error: TaskError::StateNotFound("b".to_string()),
        }))
    );
}

#[test]
fn scan_of_no_workspaces_is_clean() {
    let mut scan = Scan::new(0);
    scan.binary_resolved(None);
    scan.enumerated(Ok(Vec::new()));
    assert_eq!(scan.next(), ScanAction::Finish);
    assert_eq!(scan.outcome(), Some(Ok(Vec::new())));
    let mut blocked = Scan::new(0);
    blocked.binary_resolved(None);
    blocked.enumerated(Ok(names(&["a"])));
    assert_eq!(blocked.next(), ScanAction::Blocked);
}

#[test]
fn drift_exit_code() {
    // Two state files in a state directory.
    let files = ["ws_clean.tfstate", "ws_drift.tfstate"];
    let workspaces: Vec<String> =
        files.iter().filter_map(|name| workspace_from_file_name(name)).collect();
    assert_eq!(workspaces, names(&["ws_clean", "ws_drift"]));

    // A tool that answers the version query, and for any plan writes one
    // changed resource and leaves with exit code 2.
    let version_output = b"{\"terraform_version\":\"1.7.5\"}\n";
    let plan_output = b"{\"resource_changes\":[{\"change\":{\"actions\":[\"update\"]}}]}\n";
    let plan_exit = Some(2);

    let mut scan = Scan::new(2);
    scan.binary_resolved(None);
    scan.enumerated(Ok(workspaces));
    loop {
        match scan.next() {
            ScanAction::Start(index) => {
                let version = terraform_version(version_output);
                assert_eq!(version, Some("1.7.5".to_string()));
                scan.complete(index, Ok(detect_drift(plan_output, plan_exit, 5, version)));
            }
            ScanAction::Finish => break,
            other => panic!("unexpected step {:?}", other),
        }
    }
    let outcome = scan.outcome().unwrap();
    assert_eq!(exit_code(&outcome), 2);
    let results = outcome.unwrap();
    assert_eq!(results.len(), 2);
    assert!(results.iter().all(|r| r.drift));
    assert!(results.iter().all(|r| r.changed_resources == 1));
}
