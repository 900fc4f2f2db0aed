//! What holds of every scan.

use vstd::prelude::*;
use crate::plan::DriftReport;
use crate::scheduler::{
    lemma_running_none, lemma_running_update, running, SchedulerAction, SchedulerState,
    TaskError, TaskStatus, WorkspaceResult,
};

verus! {

/// What can happen in a scan.
pub enum SchedulerEvent {
    /// The caller tries to admit the next workspace.
    Admission,
    /// The scan of the workspace at a position has ended.
    Completion(int, Result<DriftReport, TaskError>),
}

/// The state after one event.
pub open spec fn after_event(s: SchedulerState, event: SchedulerEvent) -> SchedulerState {
    match event {
        SchedulerEvent::Admission => s.admitted(),
        SchedulerEvent::Completion(index, result) => s.completed(index, result),
    }
}

/// The state after a series of events, the first of them first.
pub open spec fn after_events(s: SchedulerState, events: Seq<SchedulerEvent>) -> SchedulerState
    decreases events.len(),
{
    if events.len() == 0 {
        s
    } else {
        after_event(after_events(s, events.drop_last()), events.last())
    }
}

/// No more scans run than there are workspaces.
pub proof fn lemma_running_bound(tasks: Seq<TaskStatus>)
    ensures
        running(tasks) <= tasks.len(),
    decreases tasks.len(),
{
    if tasks.len() > 0 {
        lemma_running_bound(tasks.drop_last());
    }
}

/// A scan starts in a valid state.
pub proof fn lemma_initial_valid(workspaces: Seq<String>, limit: nat)
    ensures
        SchedulerState::initial(workspaces, limit).valid(),
        running(SchedulerState::initial(workspaces, limit).tasks) == 0,
{
    lemma_running_none(SchedulerState::initial(workspaces, limit).tasks);
}

/// An admission attempt keeps a state valid. Where it admits a workspace, one
/// more scan runs, and it does so only where fewer scans ran than there are
/// slots.
pub proof fn lemma_admission_valid(s: SchedulerState)
    requires
        s.valid(),
    ensures
        s.admitted().valid(),
        s.admitted().workspaces == s.workspaces,
        s.admitted().limit == s.limit,
        s.can_admit() ==> running(s.admitted().tasks) == running(s.tasks) + 1,
        !s.can_admit() ==> s.admitted() == s,
{
    if s.can_admit() {
        lemma_running_update(s.tasks, s.started as int, TaskStatus::Running);
    }
}

/// The end of a scan keeps a state valid, and gives the slot back
/// whether the scan succeeded or failed.
pub proof fn lemma_completion_valid(
    s: SchedulerState,
    index: int,
    result: Result<DriftReport, TaskError>,
)
    requires
        s.valid(),
    ensures
        s.completed(index, result).valid(),
        s.completed(index, result).workspaces == s.workspaces,
        s.completed(index, result).limit == s.limit,
        0 <= index < s.tasks.len() && s.tasks[index] is Running ==> running(
            s.completed(index, result).tasks,
        ) + 1 == running(s.tasks),
{
    if 0 <= index < s.tasks.len() && s.tasks[index] is Running {
        let t = s.completed(index, result);
        lemma_running_update(s.tasks, index, t.tasks[index]);
    }
}

/// Every state that a scan reaches is valid, and has the workspaces and the
/// slots that the scan started with.
pub proof fn lemma_reachable_valid(
    workspaces: Seq<String>,
    limit: nat,
    events: Seq<SchedulerEvent>,
)
    ensures
        after_events(SchedulerState::initial(workspaces, limit), events).valid(),
        after_events(SchedulerState::initial(workspaces, limit), events).workspaces == workspaces,
        after_events(SchedulerState::initial(workspaces, limit), events).limit == limit,
    decreases events.len(),
{
    let start = SchedulerState::initial(workspaces, limit);
    if events.len() == 0 {
        lemma_initial_valid(workspaces, limit);
    } else {
        lemma_reachable_valid(workspaces, limit, events.drop_last());
        let before = after_events(start, events.drop_last());
        match events.last() {
            SchedulerEvent::Admission => {
                lemma_admission_valid(before);
            },
            SchedulerEvent::Completion(index, result) => {
                lemma_completion_valid(before, index, result);
            },
        }
    }
}

/// The concurrency bound: whatever the order in which workspaces are admitted
/// and scans end, never more scans run than there are slots.
pub proof fn lemma_concurrency_bound(
    workspaces: Seq<String>,
    limit: nat,
    events: Seq<SchedulerEvent>,
)
    ensures
        running(after_events(SchedulerState::initial(workspaces, limit), events).tasks) <= limit,
{
    lemma_reachable_valid(workspaces, limit, events);
}

/// A workspace is started only by an admission that found a slot
/// free.
pub proof fn lemma_start_needs_free_slot(s: SchedulerState)
    requires
        s.valid(),
    ensures
        s.admission() is Start <==> s.can_admit(),
        s.admission() is Start ==> {
            &&& running(s.tasks) < s.limit
            &&& s.admission() == SchedulerAction::Start(s.started as usize)
            &&& s.tasks[s.started as int] is Waiting
            &&& s.admitted().tasks[s.started as int] is Running
        },
{
}

/// The scan is over exactly when no workspace waits and none runs.
pub proof fn lemma_finish_iff_finished(s: SchedulerState)
    requires
        s.valid(),
    ensures
        s.admission() == SchedulerAction::Finish <==> s.finished(),
{
    if s.finished() {
        lemma_running_none(s.tasks);
        if s.started < s.tasks.len() {
            assert(s.tasks[s.started as int] is Waiting);
        }
    } else {
        if s.started >= s.tasks.len() && running(s.tasks) == 0 {
            lemma_none_running(s.tasks);
            assert forall|i: int| 0 <= i < s.tasks.len() implies (#[trigger] s.tasks[i]
                is Succeeded || s.tasks[i] is Failed) by {
                assert(!(s.tasks[i] is Waiting));
            }
        }
    }
}

proof fn lemma_none_running(tasks: Seq<TaskStatus>)
    requires
        running(tasks) == 0,
    ensures
        forall|i: int| 0 <= i < tasks.len() ==> !(#[trigger] tasks[i] is Running),
    decreases tasks.len(),
{
    if tasks.len() > 0 {
        lemma_none_running(tasks.drop_last());
        assert forall|i: int| 0 <= i < tasks.len() implies !(#[trigger] tasks[i] is Running) by {
            if i < tasks.len() - 1 {
                assert(tasks.drop_last()[i] == tasks[i]);
            }
        }
    }
}

proof fn lemma_first_failure(s: SchedulerState, from: int)
    requires
        0 <= from <= s.tasks.len(),
    ensures
        match s.first_failure(from) {
            Some(k) => from <= k < s.tasks.len() && s.tasks[k] is Failed && forall|i: int|
                from <= i < k ==> !(#[trigger] s.tasks[i] is Failed),
            None => forall|i: int| from <= i < s.tasks.len() ==> !(#[trigger] s.tasks[i] is Failed),
        },
    decreases s.tasks.len() - from,
{
    if from < s.tasks.len() && !(s.tasks[from] is Failed) {
        lemma_first_failure(s, from + 1);
    }
}

/// No silent drops: a scan that succeeded has one result for each workspace of
/// the enumeration, in its order and under its name.
pub proof fn lemma_success_covers_enumeration(s: SchedulerState, results: Seq<WorkspaceResult>)
    requires
        s.valid(),
        s.outcome() == Some(Ok::<Seq<WorkspaceResult>, crate::scheduler::ScanError>(results)),
    ensures
        results.len() == s.workspaces.len(),
        forall|i: int| 0 <= i < results.len() ==> (#[trigger] results[i]).workspace == s.workspaces[i],
        forall|i: int| 0 <= i < results.len() ==> s.tasks[i] == TaskStatus::Succeeded(results[i]),
{
    lemma_first_failure(s, 0);
    assert forall|i: int| 0 <= i < results.len() implies s.tasks[i] == TaskStatus::Succeeded(
        #[trigger] results[i],
    ) by {
        assert(s.tasks[i] is Succeeded || s.tasks[i] is Failed);
    }
}

/// No partial success: once every workspace is done, the scan has failed if
/// and only if the scan of some workspace failed, and then with the failure of
/// the first such workspace in the order of enumeration.
pub proof fn lemma_failure_fails_scan(s: SchedulerState)
    requires
        s.valid(),
        s.finished(),
    ensures
        s.outcome() is Some,
        s.outcome()->0 is Err <==> exists|k: int|
            0 <= k < s.tasks.len() && #[trigger] s.tasks[k] is Failed,
        s.outcome()->0 is Err ==> {
            let k = s.first_failure(0)->0;
            &&& 0 <= k < s.tasks.len()
            &&& s.tasks[k] is Failed
            &&& forall|i: int| 0 <= i < k ==> !(#[trigger] s.tasks[i] is Failed)
            &&& s.outcome()->0->Err_0 == crate::scheduler::ScanError::Task {
                workspace: s.workspaces[k],
                error: s.tasks[k]->Failed_0,
            }
        },
{
    lemma_first_failure(s, 0);
}

} // verus!
