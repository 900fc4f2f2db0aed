use terradrift::json::{Json, Member};
use terradrift::plan::{
    changes_in_record, count_changes, detect_drift, drift_verdict, is_only_noop, plan_arguments,
    resource_changed, state_variable, version_or_unknown, DriftReport, Phase, PlanRunner,
    RunnerAction, RunnerEvent, CHANGES_PRESENT,
};

const UPDATE: &[u8] = b"{\"resource_changes\":[{\"change\":{\"actions\":[\"update\"]}}]}\n";
const NOOP: &[u8] = b"{\"resource_changes\":[{\"change\":{\"actions\":[\"no-op\"]}}]}\n";

fn run(output: &[u8], exit_code: Option<i32>) -> DriftReport {
    detect_drift(output, exit_code, 12, Some("1.7.5".to_string()))
}

fn object(members: Vec<(&str, Json)>) -> Json {
    Json::Object(
        members.into_iter().map(|(k, v)| Member { key: k.to_string(), value: v }).collect(),
    )
}

fn resource(actions: Vec<&str>) -> Json {
    let list = actions.into_iter().map(|a| Json::Text(a.to_string())).collect();
    object(vec![("change", object(vec![("actions", Json::Array(list))]))])
}

#[test]
fn change_record_and_reserved_exit_code_are_drift() {
    let report = run(UPDATE, Some(2));
    assert!(report.drift);
    assert_eq!(report.changed_resources, 1);
    assert_eq!(report.duration_ms, 12);
    assert_eq!(report.terraform_version, "1.7.5");
}

#[test]
fn clean_run_reports_no_drift() {
    let report = run(b"", Some(0));
    assert_eq!(
        report,
        DriftReport {
            changed_resources: 0,
            drift: false,
            duration_ms: 12,
            terraform_version: "1.7.5".to_string(),
        }
    );
}

#[test]
fn reserved_exit_code_alone_is_drift() {
    let report = run(b"", Some(CHANGES_PRESENT));
    assert!(report.drift);
    assert_eq!(report.changed_resources, 0);
    let report = run(NOOP, Some(2));
    assert!(report.drift);
    assert_eq!(report.changed_resources, 0);
}

#[test]
fn change_record_alone_is_drift() {
    for code in [Some(0), Some(1), Some(143), None] {
        let report = run(UPDATE, code);
        assert!(report.drift);
        assert_eq!(report.changed_resources, 1);
    }
}

#[test]
fn crash_without_output_is_no_drift() {
    assert!(!run(b"", Some(1)).drift);
    assert!(!run(b"", None).drift);
    assert!(!run(b"", Some(-2)).drift);
}

#[test]
fn unparsable_line_is_skipped() {
    let mut output = Vec::new();
    output.extend_from_slice(b"2024-01-01T00:00:00Z [INFO] refreshing state...\n");
    output.extend_from_slice(b"{\"resource_changes\":[\n");
    output.extend_from_slice(UPDATE);
    let report = run(&output, Some(0));
    assert!(report.drift);
    assert_eq!(report.changed_resources, 1);
}

#[test]
fn noop_only_is_not_a_change() {
    let report = run(NOOP, Some(0));
    assert!(!report.drift);
    assert_eq!(report.changed_resources, 0);
}

#[test]
fn one_record_may_hold_several_changes() {
    let record = b"{\"resource_changes\":[{\"change\":{\"actions\":[\"create\"]}},{\"change\":{\"actions\":[\"no-op\"]}},{\"change\":{\"actions\":[\"delete\",\"create\"]}}]}\n";
    let report = run(record, Some(2));
    assert_eq!(report.changed_resources, 2);
    assert!(report.drift);
}

#[test]
fn last_record_needs_no_end_byte() {
    let report = run(&UPDATE[..UPDATE.len() - 1], Some(0));
    assert!(report.drift);
    assert_eq!(report.changed_resources, 1);
}

#[test]
fn changes_in_record_counts_by_the_action_lists() {
    assert_eq!(changes_in_record(&UPDATE[..UPDATE.len() - 1]), 1);
    assert_eq!(changes_in_record(NOOP), 0);
    assert_eq!(changes_in_record(b"not json"), 0);
    assert_eq!(changes_in_record(b""), 0);
    assert_eq!(changes_in_record(b"{\"resource_changes\":{}}"), 0);
    assert_eq!(changes_in_record(b"{\"resource_changes\":[{\"change\":{}}]}"), 0);
    assert_eq!(changes_in_record(b"{\"resource_changes\":[{\"change\":{\"actions\":[]}}]}"), 1);
    assert_eq!(changes_in_record(b"{\"resource_changes\":[{\"change\":{\"actions\":[7]}}]}"), 1);
    assert_eq!(
        changes_in_record(b"{\"resource_changes\":[{\"change\":{\"actions\":[\"no-op\",\"no-op\"]}}]}"),
        1
    );
    assert_eq!(changes_in_record(b"[{\"change\":{\"actions\":[\"update\"]}}]"), 0);
}

#[test]
fn count_changes_on_a_document() {
    let doc = object(vec![(
        "resource_changes",
        Json::Array(vec![
            resource(vec!["update"]),
            resource(vec!["no-op"]),
            resource(vec![]),
            object(vec![("change", Json::Null)]),
            Json::Null,
            resource(vec!["no-op", "update"]),
        ]),
    )]);
    assert_eq!(count_changes(&doc), 3);
    assert_eq!(count_changes(&object(vec![])), 0);
    assert_eq!(count_changes(&Json::Array(vec![resource(vec!["update"])])), 0);
    assert!(resource_changed(&resource(vec!["update"])));
    assert!(!resource_changed(&resource(vec!["no-op"])));
    assert!(!resource_changed(&Json::Null));
    assert!(is_only_noop(&vec![Json::Text("no-op".to_string())]));
    assert!(!is_only_noop(&vec![]));
    assert!(!is_only_noop(&vec![Json::Text("noop".to_string())]));
}

#[test]
fn drift_verdict_is_the_or_of_both_signals() {
    assert!(!drift_verdict(Some(0), 0));
    assert!(!drift_verdict(None, 0));
    assert!(!drift_verdict(Some(1), 0));
    assert!(drift_verdict(Some(2), 0));
    assert!(drift_verdict(Some(0), 1));
    assert!(drift_verdict(None, 5));
    assert!(drift_verdict(Some(2), 3));
}

#[test]
fn runner_stops_reading_at_the_first_change() {
    let mut runner = PlanRunner::new();
    assert_eq!(runner.phase(), Phase::Starting);
    assert_eq!(runner.action(), RunnerAction::Launch);
    assert_eq!(runner.launched(), RunnerAction::Read);
    assert_eq!(runner.feed(b"log line\n"), RunnerAction::Read);
    assert_eq!(runner.records(), 1);
    let mut chunk = Vec::new();
    chunk.extend_from_slice(UPDATE);
    chunk.extend_from_slice(UPDATE);
    chunk.extend_from_slice(UPDATE);
    assert_eq!(runner.feed(&chunk), RunnerAction::Kill);
    assert_eq!(runner.phase(), Phase::Deciding);
    assert_eq!(runner.records(), 2);
    assert_eq!(runner.changed(), 1);
    assert_eq!(runner.feed(UPDATE), RunnerAction::Kill);
    assert_eq!(runner.end_of_stream(), RunnerAction::Kill);
    assert_eq!(runner.records(), 2);
    assert_eq!(runner.changed(), 1);
    assert_eq!(runner.report(1, None), None);
    assert_eq!(runner.exited(None), RunnerAction::Report);
    assert_eq!(runner.phase(), Phase::Terminated);
    let report = runner.report(40, None).unwrap();
    assert_eq!(
        report,
        DriftReport {
            changed_resources: 1,
            drift: true,
            duration_ms: 40,
            terraform_version: String::new(),
        }
    );
}

#[test]
fn runner_waits_after_a_clean_stream() {
    let mut runner = PlanRunner::new();
    runner.launched();
    assert_eq!(runner.feed(NOOP), RunnerAction::Read);
    assert_eq!(runner.feed(b"{\"type\":\"version\"}\n\n"), RunnerAction::Read);
    assert_eq!(runner.records(), 3);
    assert_eq!(runner.end_of_stream(), RunnerAction::Wait);
    assert_eq!(runner.phase(), Phase::Deciding);
    assert_eq!(runner.exited(Some(0)), RunnerAction::Report);
    let report = runner.report(7, Some("1.9.0".to_string())).unwrap();
    assert!(!report.drift);
    assert_eq!(report.changed_resources, 0);
    assert_eq!(report.terraform_version, "1.9.0");
}

#[test]
fn runner_ignores_what_comes_out_of_turn() {
    let mut runner = PlanRunner::new();
    assert_eq!(runner.feed(UPDATE), RunnerAction::Launch);
    assert_eq!(runner.end_of_stream(), RunnerAction::Launch);
    assert_eq!(runner.exited(Some(2)), RunnerAction::Launch);
    assert_eq!(runner.records(), 0);
    assert_eq!(runner.changed(), 0);
    assert_eq!(runner.launched(), RunnerAction::Read);
    assert_eq!(runner.launched(), RunnerAction::Read);
    assert_eq!(runner.exited(Some(2)), RunnerAction::Read);
    assert_eq!(runner.phase(), Phase::Streaming);
    assert_eq!(runner.end_of_stream(), RunnerAction::Wait);
    assert_eq!(runner.exited(Some(2)), RunnerAction::Report);
    assert_eq!(runner.exited(Some(0)), RunnerAction::Report);
    assert!(runner.report(0, None).unwrap().drift);
}

#[test]
fn cutting_the_output_differently_changes_nothing() {
    let mut output = Vec::new();
    output.extend_from_slice(b"noise\n");
    output.extend_from_slice(NOOP);
    output.extend_from_slice(UPDATE);
    output.extend_from_slice(b"tail\n");
    let whole = run(&output, Some(1));
    for size in 1..output.len() {
        let mut runner = PlanRunner::new();
        runner.launched();
        for chunk in output.chunks(size) {
            runner.feed(chunk);
        }
        runner.end_of_stream();
        runner.exited(Some(1));
        assert_eq!(runner.records(), 3);
        assert_eq!(runner.report(12, Some("1.7.5".to_string())).unwrap(), whole);
    }
}

#[test]
fn step_takes_events() {
    let mut runner = PlanRunner::new();
    assert_eq!(runner.step(&RunnerEvent::Launched), RunnerAction::Read);
    assert_eq!(runner.step(&RunnerEvent::Output(NOOP.to_vec())), RunnerAction::Read);
    assert_eq!(runner.step(&RunnerEvent::Output(UPDATE.to_vec())), RunnerAction::Kill);
    assert_eq!(runner.step(&RunnerEvent::EndOfOutput), RunnerAction::Kill);
    assert_eq!(runner.step(&RunnerEvent::Exited(Some(1))), RunnerAction::Report);
    assert_eq!(runner.changed(), 1);
    assert_eq!(runner.records(), 2);
}

#[test]
fn unknown_version_is_empty() {
    assert_eq!(version_or_unknown(None), "");
    assert_eq!(version_or_unknown(Some("1.7.5".to_string())), "1.7.5");
    assert_eq!(detect_drift(b"", Some(0), 0, None).terraform_version, "");
}

#[test]
fn plan_arguments_are_fixed() {
    assert_eq!(
        plan_arguments(),
        vec!["plan", "-detailed-exitcode", "-input=false", "-no-color", "-refresh=true", "-json"]
    );
    assert_eq!(state_variable(), "TF_STATE");
}
