//! What holds of every scan of a profile.

use vstd::prelude::*;
use crate::plan::DriftReport;
use crate::scan::{ScanAction, ScanState};
use crate::scheduler::{running, TaskError};
use crate::scheduler_laws::{lemma_admission_valid, lemma_completion_valid, lemma_initial_valid};

verus! {

/// What can happen in a scan of a profile.
pub enum ScanEvent {
    /// The caller has tried to resolve the binary: `None` where it is there.
    BinaryResolved(Option<String>),
    /// The caller has tried to enumerate the workspaces.
    Enumerated(Result<Seq<String>, String>),
    /// The caller has asked for the next step.
    Asked,
    /// The scan of the workspace at a position has ended.
    Completed(int, Result<DriftReport, TaskError>),
}

/// The state after one event.
pub open spec fn after_event(s: ScanState, event: ScanEvent) -> ScanState {
    match event {
        ScanEvent::BinaryResolved(failure) => s.binary_resolved(failure),
        ScanEvent::Enumerated(workspaces) => s.enumerated(workspaces),
        ScanEvent::Asked => s.advanced(),
        ScanEvent::Completed(index, result) => s.completed(index, result),
    }
}

/// The state after a series of events, the first of them first.
pub open spec fn after_events(s: ScanState, events: Seq<ScanEvent>) -> ScanState
    decreases events.len(),
{
    if events.len() == 0 {
        s
    } else {
        after_event(after_events(s, events.drop_last()), events.last())
    }
}

/// How many scans of workspaces run in a state.
pub open spec fn running_in(s: ScanState) -> nat {
    match s {
        ScanState::Scanning(scheduler) => running(scheduler.tasks),
        _ => 0,
    }
}

/// The number of slots that a state has.
pub open spec fn limit_of(s: ScanState) -> Option<nat> {
    match s {
        ScanState::NeedBinary { limit } => Some(limit),
        ScanState::NeedWorkspaces { limit } => Some(limit),
        ScanState::Scanning(scheduler) => Some(scheduler.limit),
        ScanState::Failed(_) => None,
    }
}

/// Every event keeps a scan valid and its number of slots as it was.
pub proof fn lemma_event_keeps_valid(s: ScanState, event: ScanEvent)
    requires
        s.valid(),
    ensures
        after_event(s, event).valid(),
        limit_of(after_event(s, event)) is Some ==> limit_of(after_event(s, event)) == limit_of(s),
{
    match s {
        ScanState::Scanning(scheduler) => {
            match event {
                ScanEvent::Asked => {
                    lemma_admission_valid(scheduler);
                },
                ScanEvent::Completed(index, result) => {
                    lemma_completion_valid(scheduler, index, result);
                },
                _ => {},
            }
        },
        ScanState::NeedWorkspaces { limit } => {
            match event {
                ScanEvent::Enumerated(Ok(names)) => {
                    lemma_initial_valid(names, limit);
                },
                _ => {},
            }
        },
        _ => {},
    }
}

/// Every state that a scan reaches is valid.
pub proof fn lemma_reachable_valid(limit: nat, events: Seq<ScanEvent>)
    ensures
        after_events(ScanState::NeedBinary { limit }, events).valid(),
        limit_of(after_events(ScanState::NeedBinary { limit }, events)) is Some ==> limit_of(
            after_events(ScanState::NeedBinary { limit }, events),
        ) == Some(limit),
    decreases events.len(),
{
    if events.len() > 0 {
        lemma_reachable_valid(limit, events.drop_last());
        lemma_event_keeps_valid(
            after_events(ScanState::NeedBinary { limit }, events.drop_last()),
            events.last(),
        );
    }
}

/// The concurrency bound for a whole scan: whatever happens, never more
/// workspaces are scanned at once than the scan was given slots.
pub proof fn lemma_concurrency_bound(limit: nat, events: Seq<ScanEvent>)
    ensures
        running_in(after_events(ScanState::NeedBinary { limit }, events)) <= limit,
{
    lemma_reachable_valid(limit, events);
}

/// No workspace is started before the binary is there and the workspaces are
/// enumerated: until then the next step is to get the one or the other.
pub proof fn lemma_first_things_first(s: ScanState)
    ensures
        s is NeedBinary ==> s.step() == ScanAction::ResolveBinary,
        s is NeedWorkspaces ==> s.step() == ScanAction::Enumerate,
        s.step() is Start ==> s is Scanning,
        s.step() is Wait ==> s is Scanning,
{
}

/// A scan that has failed stays failed: nothing that is reported changes it,
/// the next step is to finish, and the outcome is the failure.
pub proof fn lemma_failure_is_final(s: ScanState, event: ScanEvent)
    requires
        s is Failed,
    ensures
        after_event(s, event) == s,
        s.step() == ScanAction::Finish,
        s.outcome() == Some(Err::<Seq<crate::scheduler::WorkspaceResult>, _>(s->Failed_0)),
{
}

/// Once the workspaces are scanned, the scan does not go back, and no failure
/// of the binary or of the enumeration can come any more.
pub proof fn lemma_scanning_goes_on(s: ScanState, event: ScanEvent)
    requires
        s is Scanning,
    ensures
        after_event(s, event) is Scanning,
{
}

/// Fail fast: a scan that failed for want of the binary or of the enumeration
/// has never started the scan of a workspace. At no point of what happened
/// were workspaces scanned.
pub proof fn lemma_fatal_failure_precedes_scans(limit: nat, events: Seq<ScanEvent>, k: int)
    requires
        0 <= k <= events.len(),
        after_events(ScanState::NeedBinary { limit }, events) is Failed,
    ensures
        !(after_events(ScanState::NeedBinary { limit }, events.take(k)) is Scanning),
    decreases events.len() - k,
{
    let start = ScanState::NeedBinary { limit };
    if k == events.len() {
        assert(events.take(k) =~= events);
    } else {
        lemma_fatal_failure_precedes_scans(limit, events, k + 1);
        let longer = events.take(k + 1);
        assert(longer.drop_last() =~= events.take(k));
        if after_events(start, events.take(k)) is Scanning {
            lemma_scanning_goes_on(after_events(start, events.take(k)), longer.last());
        }
    }
}

} // verus!
