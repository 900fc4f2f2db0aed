//! Scanning the workspaces of a profile, a bounded number of them at a time.

use vstd::prelude::*;
use crate::plan::DriftReport;

verus! {

/// The least number of workspaces scanned at once where nothing else is asked
/// for.
pub const MIN_DEFAULT_JOBS: usize = 2;

/// What the scan of one workspace gave.
#[derive(Clone, Debug, PartialEq, Eq)]
pub struct WorkspaceResult {
    pub workspace: String,
    pub drift: bool,
    pub changed_resources: u64,
    pub duration_ms: u128,
}

/// Why the scan of one workspace failed.
#[derive(Clone, Debug, PartialEq, Eq)]
pub enum TaskError {
    /// The workspace has no recorded state.
    StateNotFound(String),
    /// The recorded state could not be fetched.
    Fetch(String),
    /// The tool could not be launched, or its output could not be read.
    Launch(String),
}

/// Why a scan failed as a whole.
#[derive(Clone, Debug, PartialEq, Eq)]
pub enum ScanError {
    /// No usable binary of the tool.
    Binary(String),
    /// The workspaces could not be enumerated.
    Enumeration(String),
    /// The scan of a workspace failed.
    Task { workspace: String, error: TaskError },
}

/// How far the scan of one workspace is.
#[derive(Clone, Debug, PartialEq, Eq)]
pub enum TaskStatus {
    /// Not admitted yet.
    Waiting,
    /// Admitted and not yet over: it holds one slot.
    Running,
    Succeeded(WorkspaceResult),
    Failed(TaskError),
}

/// What the caller has to do next.
#[derive(Clone, Copy, Debug, PartialEq, Eq, Structural)]
pub enum SchedulerAction {
    /// Start the scan of the workspace at this position: it has been admitted.
    Start(usize),
    /// Wait for a running scan to end and report it.
    Wait,
    /// Nothing runs and nothing can be admitted: there are no slots at all.
    Blocked,
    /// Every workspace is done: take the outcome.
    Finish,
}

/// The limit on concurrent scans: what this invocation asks for, else what
/// the profile asks for, else the number of processors, and then at least two.
pub open spec fn resolved_limit(jobs: Option<usize>, profile_jobs: Option<usize>, cpus: usize)
    -> usize {
    match jobs {
        Some(n) => n,
        None => match profile_jobs {
            Some(n) => n,
            None => if cpus < MIN_DEFAULT_JOBS {
                MIN_DEFAULT_JOBS
            } else {
                cpus
            },
        },
    }
}

/// How many of `tasks` are running.
pub open spec fn running(tasks: Seq<TaskStatus>) -> nat
    decreases tasks.len(),
{
    if tasks.len() == 0 {
        0
    } else {
        running(tasks.drop_last()) + if tasks.last() is Running {
            1nat
        } else {
            0nat
        }
    }
}

/// The result that is recorded for a workspace whose scan gave `report`.
pub open spec fn result_of(workspace: String, report: DriftReport) -> WorkspaceResult {
    WorkspaceResult {
        workspace,
        drift: report.drift,
        changed_resources: report.changed_resources,
        duration_ms: report.duration_ms,
    }
}

/// A scan as a mathematical value.
pub struct SchedulerState {
    /// The workspaces, as they were enumerated.
    pub workspaces: Seq<String>,
    /// The number of slots: how many scans may run at once.
    pub limit: nat,
    /// How many workspaces were admitted so far.
    pub started: nat,
    /// The status of each workspace, by position.
    pub tasks: Seq<TaskStatus>,
}

impl SchedulerState {
    /// A scan that has not admitted anything.
    pub open spec fn initial(workspaces: Seq<String>, limit: nat) -> SchedulerState {
        SchedulerState {
            workspaces,
            limit,
            started: 0,
            tasks: Seq::new(workspaces.len(), |i: int| TaskStatus::Waiting),
        }
    }

    /// What holds of every state of a scan: each workspace has a status, the
    /// workspaces are admitted in order, and the running scans are no more than
    /// there are slots.
    pub open spec fn valid(self) -> bool {
        &&& self.tasks.len() == self.workspaces.len()
        &&& self.started <= self.tasks.len()
        &&& forall|i: int|
            0 <= i < self.tasks.len() ==> (#[trigger] self.tasks[i] is Waiting <==> i
                >= self.started)
        &&& forall|i: int|
            0 <= i < self.tasks.len() && #[trigger] self.tasks[i] is Succeeded
                ==> self.tasks[i]->Succeeded_0.workspace == self.workspaces[i]
        &&& running(self.tasks) <= self.limit
    }

    /// Whether a slot is free for the next workspace.
    pub open spec fn can_admit(self) -> bool {
        self.started < self.tasks.len() && running(self.tasks) < self.limit
    }

    /// What an admission attempt asks of the caller.
    pub open spec fn admission(self) -> SchedulerAction {
        if self.can_admit() {
            SchedulerAction::Start(self.started as usize)
        } else if running(self.tasks) > 0 {
            SchedulerAction::Wait
        } else if self.started < self.tasks.len() {
            SchedulerAction::Blocked
        } else {
            SchedulerAction::Finish
        }
    }

    /// The state after an admission attempt.
    pub open spec fn admitted(self) -> SchedulerState {
        if self.can_admit() {
            SchedulerState {
                started: self.started + 1,
                tasks: self.tasks.update(self.started as int, TaskStatus::Running),
                ..self
            }
        } else {
            self
        }
    }

    /// The state after the scan at `index` has ended with `result`. A report for
    /// a workspace that is not running changes nothing.
    pub open spec fn completed(self, index: int, result: Result<DriftReport, TaskError>)
        -> SchedulerState {
        if 0 <= index < self.tasks.len() && index < self.workspaces.len()
            && self.tasks[index] is Running {
            SchedulerState {
                tasks: self.tasks.update(
                    index,
                    match result {
                        Ok(report) => TaskStatus::Succeeded(
                            result_of(self.workspaces[index], report),
                        ),
                        Err(error) => TaskStatus::Failed(error),
                    },
                ),
                ..self
            }
        } else {
            self
        }
    }

    /// Whether every workspace is done.
    pub open spec fn finished(self) -> bool {
        forall|i: int|
            0 <= i < self.tasks.len() ==> (#[trigger] self.tasks[i] is Succeeded
                || self.tasks[i] is Failed)
    }

    /// The results of the workspaces, by position, once every scan succeeded.
    pub open spec fn results(self) -> Seq<WorkspaceResult> {
        Seq::new(self.tasks.len(), |i: int| self.tasks[i]->Succeeded_0)
    }

    /// The outcome of the scan: none before every workspace is done; then the
    /// results of all workspaces in the order of enumeration, or, where a scan
    /// failed, the failure of the first such workspace in that order.
    pub open spec fn outcome(self) -> Option<Result<Seq<WorkspaceResult>, ScanError>> {
        if !self.finished() {
            None
        } else {
            match self.first_failure(0) {
                Some(k) => Some(
                    Err(
                        ScanError::Task {
                            workspace: self.workspaces[k],
                            error: self.tasks[k]->Failed_0,
                        },
                    ),
                ),
                None => Some(Ok(self.results())),
            }
        }
    }

    /// The position of the first workspace whose scan failed, at or behind
    /// `from`.
    pub open spec fn first_failure(self, from: int) -> Option<int>
        decreases self.tasks.len() - from,
    {
        if from < 0 || from >= self.tasks.len() {
            None
        } else if self.tasks[from] is Failed {
            Some(from)
        } else {
            self.first_failure(from + 1)
        }
    }
}

/// Calls `num_cpus::get` for the number of processors that this process may
/// use. Nothing is claimed of the number: it depends on the machine.
#[verifier::external_body]
fn available_cpus() -> usize {
    num_cpus::get()
}

/// Resolves the limit on concurrent scans from what the invocation and the
/// profile ask for and the number of processors.
pub fn resolve_concurrency(jobs: Option<usize>, profile_jobs: Option<usize>, cpus: usize) -> (limit:
    usize)
    ensures
        limit == resolved_limit(jobs, profile_jobs, cpus),
{
    match jobs {
        Some(n) => n,
        None => match profile_jobs {
            Some(n) => n,
            None => if cpus < MIN_DEFAULT_JOBS {
                MIN_DEFAULT_JOBS
            } else {
                cpus
            },
        },
    }
}

/// The limit on concurrent scans on this machine.
pub fn concurrency_limit(jobs: Option<usize>, profile_jobs: Option<usize>) -> (limit: usize)
    ensures
        jobs is Some ==> limit == jobs->0,
        jobs is None && profile_jobs is Some ==> limit == profile_jobs->0,
        jobs is None && profile_jobs is None ==> limit >= MIN_DEFAULT_JOBS,
        exists|cpus: usize| limit == resolved_limit(jobs, profile_jobs, cpus),
{
    let cpus = available_cpus();
    resolve_concurrency(jobs, profile_jobs, cpus)
}

/// Replacing one status moves the number of running scans by what the old
/// and the new status count.
pub proof fn lemma_running_update(tasks: Seq<TaskStatus>, index: int, status: TaskStatus)
    requires
        0 <= index < tasks.len(),
    ensures
        running(tasks.update(index, status)) + (if tasks[index] is Running {
            1nat
        } else {
            0nat
        }) == running(tasks) + (if status is Running {
            1nat
        } else {
            0nat
        }),
    decreases tasks.len(),
{
    let updated = tasks.update(index, status);
    if index == tasks.len() - 1 {
        assert(updated.drop_last() =~= tasks.drop_last());
    } else {
        assert(updated.drop_last() =~= tasks.drop_last().update(index, status));
        lemma_running_update(tasks.drop_last(), index, status);
    }
}

/// Where no scan runs, none is counted.
pub proof fn lemma_running_none(tasks: Seq<TaskStatus>)
    requires
        forall|i: int| 0 <= i < tasks.len() ==> !(#[trigger] tasks[i] is Running),
    ensures
        running(tasks) == 0,
    decreases tasks.len(),
{
    if tasks.len() > 0 {
        lemma_running_none(tasks.drop_last());
    }
}

/// A copy of a result.
fn copy_result(result: &WorkspaceResult) -> (r: WorkspaceResult)
    ensures
        r == *result,
{
    WorkspaceResult {
        workspace: result.workspace.clone(),
        drift: result.drift,
        changed_resources: result.changed_resources,
        duration_ms: result.duration_ms,
    }
}

/// A copy of a failure.
fn copy_error(error: &TaskError) -> (r: TaskError)
    ensures
        r == *error,
{
    match error {
        TaskError::StateNotFound(m) => TaskError::StateNotFound(m.clone()),
        TaskError::Fetch(m) => TaskError::Fetch(m.clone()),
        TaskError::Launch(m) => TaskError::Launch(m.clone()),
    }
}

/// A copy of a failure of a whole scan.
pub(crate) fn copy_scan_error(error: &ScanError) -> (r: ScanError)
    ensures
        r == *error,
{
    match error {
        ScanError::Binary(reason) => ScanError::Binary(reason.clone()),
        ScanError::Enumeration(reason) => ScanError::Enumeration(reason.clone()),
        ScanError::Task { workspace, error } => ScanError::Task {
            workspace: workspace.clone(),
            error: copy_error(error),
        },
    }
}

/// The scan of the workspaces of one profile. The caller asks for the next
/// step, starts the scans it is told to start, and reports each scan that ends.
pub struct Scheduler {
    workspaces: Vec<String>,
    limit: usize,
    started: usize,
    active: usize,
    tasks: Vec<TaskStatus>,
}

impl View for Scheduler {
    type V = SchedulerState;

    closed spec fn view(&self) -> SchedulerState {
        SchedulerState {
            workspaces: self.workspaces@,
            limit: self.limit as nat,
            started: self.started as nat,
            tasks: self.tasks@,
        }
    }
}

impl Scheduler {
    /// Whether the scan is in a state that it can reach.
    pub closed spec fn wf(&self) -> bool {
        &&& self@.valid()
        &&& self.active == running(self.tasks@)
    }

    /// A scan of `workspaces` with `limit` slots.
    pub fn new(workspaces: Vec<String>, limit: usize) -> (s: Scheduler)
        ensures
            s.wf(),
            s@ == SchedulerState::initial(workspaces@, limit as nat),
            running(s@.tasks) == 0,
    {
        let mut tasks: Vec<TaskStatus> = Vec::new();
        let mut i: usize = 0;
        while i < workspaces.len()
            invariant
                i <= workspaces.len(),
                tasks@.len() == i,
                forall|j: int| 0 <= j < i ==> #[trigger] tasks@[j] is Waiting,
            decreases workspaces.len() - i,
        {
            tasks.push(TaskStatus::Waiting);
            i += 1;
        }
        proof {
            lemma_running_none(tasks@);
            assert(tasks@ =~= Seq::new(workspaces@.len(), |i: int| TaskStatus::Waiting));
        }
        Scheduler { workspaces, limit, started: 0, active: 0, tasks }
    }

    /// How many workspaces the scan has.
    pub fn len(&self) -> (n: usize)
        requires
            self.wf(),
        ensures
            n == self@.workspaces.len(),
            n == self@.tasks.len(),
    {
        self.workspaces.len()
    }

    /// The number of slots: how many scans may run at once.
    pub fn limit(&self) -> (n: usize)
        ensures
            n == self@.limit,
    {
        self.limit
    }

    /// How many scans are running. It is never more than there are slots.
    pub fn active(&self) -> (n: usize)
        requires
            self.wf(),
        ensures
            n == running(self@.tasks),
            n <= self@.limit,
    {
        self.active
    }

    /// The workspace at a position of the enumeration.
    pub fn workspace(&self, index: usize) -> (r: Option<&str>)
        ensures
            match r {
                Some(name) => index < self@.workspaces.len() && name@
                    == self@.workspaces[index as int]@,
                None => index >= self@.workspaces.len(),
            },
    {
        if index < self.workspaces.len() {
            Some(self.workspaces[index].as_str())
        } else {
            None
        }
    }

    /// Tries to admit the next workspace. Where a slot is free and
    /// a workspace waits, the first waiting workspace takes the slot and the
    /// caller is told to start its scan.
    pub fn next(&mut self) -> (a: SchedulerAction)
        requires
            old(self).wf(),
        ensures
            final(self).wf(),
            final(self)@ == old(self)@.admitted(),
            a == old(self)@.admission(),
    {
        if self.started < self.tasks.len() && self.active < self.limit {
            let index = self.started;
            proof {
                lemma_running_update(self.tasks@, index as int, TaskStatus::Running);
            }
            self.tasks.set(index, TaskStatus::Running);
            self.started = index + 1;
            self.active = self.active + 1;
            SchedulerAction::Start(index)
        } else if self.active > 0 {
            SchedulerAction::Wait
        } else if self.started < self.tasks.len() {
            SchedulerAction::Blocked
        } else {
            SchedulerAction::Finish
        }
    }

    /// Takes in the end of the scan at `index`, and gives its slot
    /// back, whether the scan succeeded or failed.
    pub fn complete(&mut self, index: usize, result: Result<DriftReport, TaskError>)
        requires
            old(self).wf(),
        ensures
            final(self).wf(),
            final(self)@ == old(self)@.completed(index as int, result),
    {
        if index >= self.tasks.len() {
            return ;
        }
        let is_running = match &self.tasks[index] {
            TaskStatus::Running => true,
            _ => false,
        };
        if !is_running {
            return ;
        }
        let status = match result {
            Ok(report) => TaskStatus::Succeeded(
                WorkspaceResult {
                    workspace: self.workspaces[index].clone(),
                    drift: report.drift,
                    changed_resources: report.changed_resources,
                    duration_ms: report.duration_ms,
                },
            ),
            Err(error) => TaskStatus::Failed(error),
        };
        proof {
            lemma_running_update(self.tasks@, index as int, status);
        }
        self.tasks.set(index, status);
        self.active = self.active - 1;
    }

    /// Whether every workspace is done.
    pub fn is_finished(&self) -> (r: bool)
        ensures
            r == self@.finished(),
    {
        let mut i: usize = 0;
        while i < self.tasks.len()
            invariant
                i <= self.tasks.len(),
                forall|j: int|
                    0 <= j < i ==> (#[trigger] self.tasks@[j] is Succeeded
                        || self.tasks@[j] is Failed),
            decreases self.tasks.len() - i,
        {
            match &self.tasks[i] {
                TaskStatus::Succeeded(_) => {},
                TaskStatus::Failed(_) => {},
                _ => {
                    return false;
                },
            }
            i += 1;
        }
        true
    }

    /// The outcome of the scan, once every workspace is done. A scan in which a
    /// workspace failed has failed, whatever the others gave.
    pub fn outcome(&self) -> (r: Option<Result<Vec<WorkspaceResult>, ScanError>>)
        requires
            self.wf(),
        ensures
            match r {
                None => self@.outcome() is None,
                Some(Ok(results)) => self@.outcome() == Some(
                    Ok::<Seq<WorkspaceResult>, ScanError>(results@),
                ),
                Some(Err(error)) => self@.outcome() == Some(
                    Err::<Seq<WorkspaceResult>, ScanError>(error),
                ),
            },
    {
        if !self.is_finished() {
            return None;
        }
        let mut results: Vec<WorkspaceResult> = Vec::new();
        let mut i: usize = 0;
        while i < self.tasks.len()
            invariant
                i <= self.tasks.len(),
                self.wf(),
                self@.finished(),
                results@.len() == i,
                self@.first_failure(0) == self@.first_failure(i as int),
                forall|j: int| 0 <= j < i ==> self.tasks@[j] == TaskStatus::Succeeded(results@[j]),
            decreases self.tasks.len() - i,
        {
            match &self.tasks[i] {
                TaskStatus::Succeeded(result) => {
                    results.push(copy_result(result));
                },
                TaskStatus::Failed(error) => {
                    return Some(
                        Err(
                            ScanError::Task {
                                workspace: self.workspaces[i].clone(),
                                error: copy_error(error),
                            },
                        ),
                    );
                },
                _ => {
                    assert(self@.tasks[i as int] is Succeeded || self@.tasks[i as int] is Failed);
                    return None;
                },
            }
            i += 1;
        }
        assert(results@ =~= self@.results());
        Some(Ok(results))
    }
}

/// The exit code of a scan that found no drift.
pub const EXIT_CLEAN: i32 = 0;

/// The exit code of a scan that failed.
pub const EXIT_FAILURE: i32 = 1;

/// The exit code of a scan that found drift.
pub const EXIT_DRIFT: i32 = 2;

/// How many of `results` report drift.
pub open spec fn drifted(results: Seq<WorkspaceResult>) -> nat
    decreases results.len(),
{
    if results.len() == 0 {
        0
    } else {
        drifted(results.drop_last()) + if results.last().drift {
            1nat
        } else {
            0nat
        }
    }
}

/// The exit code for an outcome: failure for a scan that failed, else drift
/// where a workspace reports drift, else clean.
pub open spec fn exit_status(outcome: Result<Seq<WorkspaceResult>, ScanError>) -> i32 {
    match outcome {
        Ok(results) => if drifted(results) > 0 {
            EXIT_DRIFT
        } else {
            EXIT_CLEAN
        },
        Err(_) => EXIT_FAILURE,
    }
}

/// Drift is counted exactly where some result reports it.
pub proof fn lemma_drifted_iff_some(results: Seq<WorkspaceResult>)
    ensures
        drifted(results) <= results.len(),
        drifted(results) > 0 <==> exists|i: int|
            0 <= i < results.len() && (#[trigger] results[i]).drift,
    decreases results.len(),
{
    if results.len() > 0 {
        let front = results.drop_last();
        lemma_drifted_iff_some(front);
        if exists|i: int| 0 <= i < front.len() && (#[trigger] front[i]).drift {
            let i = choose|i: int| 0 <= i < front.len() && (#[trigger] front[i]).drift;
            assert(results[i].drift);
        }
        if exists|i: int| 0 <= i < results.len() && (#[trigger] results[i]).drift {
            let i = choose|i: int| 0 <= i < results.len() && (#[trigger] results[i]).drift;
            if i < front.len() {
                assert(front[i].drift);
            }
        }
    }
}

/// Counts the results that report drift.
pub fn drift_count(results: &Vec<WorkspaceResult>) -> (n: usize)
    ensures
        n == drifted(results@),
{
    let mut n: usize = 0;
    let mut i: usize = 0;
    while i < results.len()
        invariant
            i <= results.len(),
            n <= i,
            n == drifted(results@.subrange(0, i as int)),
        decreases results.len() - i,
    {
        assert(results@.subrange(0, i + 1).drop_last() =~= results@.subrange(0, i as int));
        if results[i].drift {
            n += 1;
        }
        i += 1;
    }
    assert(results@.subrange(0, i as int) =~= results@);
    n
}

/// The exit code with which a scan is left.
pub fn exit_code(outcome: &Result<Vec<WorkspaceResult>, ScanError>) -> (code: i32)
    ensures
        code == match outcome {
            Ok(results) => exit_status(Ok(results@)),
            Err(error) => exit_status(Err(*error)),
        },
        code == EXIT_FAILURE <==> outcome is Err,
        code == EXIT_DRIFT <==> outcome is Ok && exists|i: int|
            0 <= i < outcome->Ok_0@.len() && (#[trigger] outcome->Ok_0@[i]).drift,
{
    match outcome {
        Ok(results) => {
            proof {
                lemma_drifted_iff_some(results@);
            }
            if drift_count(results) > 0 {
                EXIT_DRIFT
            } else {
                EXIT_CLEAN
            }
        },
        Err(_) => EXIT_FAILURE,
    }
}

} // verus!
