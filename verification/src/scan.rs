//! A whole scan of a profile: the binary first, then the workspaces, then
//! their scans.

use vstd::prelude::*;
use crate::plan::DriftReport;
use crate::scheduler::{
    copy_scan_error, ScanError, Scheduler, SchedulerAction, SchedulerState, TaskError,
    WorkspaceResult,
};

verus! {

/// What the caller has to do next.
#[derive(Clone, Copy, Debug, PartialEq, Eq, Structural)]
pub enum ScanAction {
    /// Resolve the binary of the tool and report how that went.
    ResolveBinary,
    /// Enumerate the workspaces and report them.
    Enumerate,
    /// Start the scan of the workspace at this position: it has been admitted.
    Start(usize),
    /// Wait for a running scan to end and report it.
    Wait,
    /// Nothing runs and nothing can be admitted: there are no slots at all.
    Blocked,
    /// The scan is over: take the outcome.
    Finish,
}

/// A scan as a mathematical value.
pub enum ScanState {
    /// The binary has not been resolved. `limit` scans may run at once.
    NeedBinary { limit: nat },
    /// The binary is there; the workspaces have not been enumerated.
    NeedWorkspaces { limit: nat },
    /// The workspaces are scanned.
    Scanning(SchedulerState),
    /// The scan has failed before any workspace was scanned.
    Failed(ScanError),
}

impl ScanState {
    /// The state after the caller has tried to resolve the binary; `failure`
    /// says why it could not.
    pub open spec fn binary_resolved(self, failure: Option<String>) -> ScanState {
        match self {
            ScanState::NeedBinary { limit } => match failure {
                Some(reason) => ScanState::Failed(ScanError::Binary(reason)),
                None => ScanState::NeedWorkspaces { limit },
            },
            _ => self,
        }
    }

    /// The state after the caller has tried to enumerate the workspaces.
    pub open spec fn enumerated(self, workspaces: Result<Seq<String>, String>) -> ScanState {
        match self {
            ScanState::NeedWorkspaces { limit } => match workspaces {
                Ok(names) => ScanState::Scanning(SchedulerState::initial(names, limit)),
                Err(reason) => ScanState::Failed(ScanError::Enumeration(reason)),
            },
            _ => self,
        }
    }

    /// The state after the scan of the workspace at `index` has ended.
    pub open spec fn completed(self, index: int, result: Result<DriftReport, TaskError>)
        -> ScanState {
        match self {
            ScanState::Scanning(s) => ScanState::Scanning(s.completed(index, result)),
            _ => self,
        }
    }

    /// The state after the caller has asked for the next step.
    pub open spec fn advanced(self) -> ScanState {
        match self {
            ScanState::Scanning(s) => ScanState::Scanning(s.admitted()),
            _ => self,
        }
    }

    /// What the next step is.
    pub open spec fn step(self) -> ScanAction {
        match self {
            ScanState::NeedBinary { limit } => ScanAction::ResolveBinary,
            ScanState::NeedWorkspaces { limit } => ScanAction::Enumerate,
            ScanState::Scanning(s) => match s.admission() {
                SchedulerAction::Start(index) => ScanAction::Start(index),
                SchedulerAction::Wait => ScanAction::Wait,
                SchedulerAction::Blocked => ScanAction::Blocked,
                SchedulerAction::Finish => ScanAction::Finish,
            },
            ScanState::Failed(_) => ScanAction::Finish,
        }
    }

    /// The outcome of the scan: a failure before the workspaces, or what the
    /// scans of the workspaces gave once all are done.
    pub open spec fn outcome(self) -> Option<Result<Seq<WorkspaceResult>, ScanError>> {
        match self {
            ScanState::Scanning(s) => s.outcome(),
            ScanState::Failed(error) => Some(Err(error)),
            _ => None,
        }
    }

    /// What holds of every state of a scan.
    pub open spec fn valid(self) -> bool {
        match self {
            ScanState::Scanning(s) => s.valid(),
            ScanState::Failed(error) => error is Binary || error is Enumeration,
            _ => true,
        }
    }
}

enum Stage {
    NeedBinary,
    NeedWorkspaces,
    Scanning(Scheduler),
    Failed(ScanError),
}

/// The scan of a profile, driven by the caller: it asks for the next step,
/// does it, and reports what came of it.
pub struct Scan {
    limit: usize,
    stage: Stage,
}

impl View for Scan {
    type V = ScanState;

    closed spec fn view(&self) -> ScanState {
        match self.stage {
            Stage::NeedBinary => ScanState::NeedBinary { limit: self.limit as nat },
            Stage::NeedWorkspaces => ScanState::NeedWorkspaces { limit: self.limit as nat },
            Stage::Scanning(scheduler) => ScanState::Scanning(scheduler@),
            Stage::Failed(error) => ScanState::Failed(error),
        }
    }
}

impl Scan {
    /// Whether the scan is in a state that it can reach.
    pub closed spec fn wf(&self) -> bool {
        &&& self@.valid()
        &&& match self.stage {
            Stage::Scanning(scheduler) => scheduler.wf(),
            _ => true,
        }
    }

    /// A scan in which `limit` workspaces may be scanned at once.
    pub fn new(limit: usize) -> (scan: Scan)
        ensures
            scan.wf(),
            scan@ == (ScanState::NeedBinary { limit: limit as nat }),
    {
        Scan { limit, stage: Stage::NeedBinary }
    }

    /// Takes in how resolving the binary went: `None` for a binary that is
    /// there, else why there is none. Without a binary the scan has failed.
    pub fn binary_resolved(&mut self, failure: Option<String>)
        requires
            old(self).wf(),
        ensures
            final(self).wf(),
            final(self)@ == old(self)@.binary_resolved(failure),
    {
        let waiting = match &self.stage {
            Stage::NeedBinary => true,
            _ => false,
        };
        if waiting {
            match failure {
                Some(reason) => {
                    self.stage = Stage::Failed(ScanError::Binary(reason));
                },
                None => {
                    self.stage = Stage::NeedWorkspaces;
                },
            }
        }
    }

    /// Takes in the workspaces that were enumerated, or why they could not be.
    /// Without the enumeration the scan has failed.
    pub fn enumerated(&mut self, workspaces: Result<Vec<String>, String>)
        requires
            old(self).wf(),
        ensures
            final(self).wf(),
            final(self)@ == old(self)@.enumerated(
                match workspaces {
                    Ok(names) => Ok(names@),
                    Err(reason) => Err(reason),
                },
            ),
    {
        let waiting = match &self.stage {
            Stage::NeedWorkspaces => true,
            _ => false,
        };
        if waiting {
            match workspaces {
                Ok(names) => {
                    proof {
                        crate::scheduler_laws::lemma_initial_valid(names@, self.limit as nat);
                    }
                    self.stage = Stage::Scanning(Scheduler::new(names, self.limit));
                },
                Err(reason) => {
                    self.stage = Stage::Failed(ScanError::Enumeration(reason));
                },
            }
        }
    }

    /// Asks for the next step. While workspaces are scanned, this admits the
    /// next workspace where a slot is free.
    pub fn next(&mut self) -> (action: ScanAction)
        requires
            old(self).wf(),
        ensures
            final(self).wf(),
            final(self)@ == old(self)@.advanced(),
            action == old(self)@.step(),
    {
        match &mut self.stage {
            Stage::NeedBinary => ScanAction::ResolveBinary,
            Stage::NeedWorkspaces => ScanAction::Enumerate,
            Stage::Scanning(scheduler) => {
                proof {
                    crate::scheduler_laws::lemma_admission_valid(scheduler@);
                }
                match scheduler.next() {
                    SchedulerAction::Start(index) => ScanAction::Start(index),
                    SchedulerAction::Wait => ScanAction::Wait,
                    SchedulerAction::Blocked => ScanAction::Blocked,
                    SchedulerAction::Finish => ScanAction::Finish,
                }
            },
            Stage::Failed(_) => ScanAction::Finish,
        }
    }

    /// Takes in the end of the scan of the workspace at `index`.
    pub fn complete(&mut self, index: usize, result: Result<DriftReport, TaskError>)
        requires
            old(self).wf(),
        ensures
            final(self).wf(),
            final(self)@ == old(self)@.completed(index as int, result),
    {
        match &mut self.stage {
            Stage::Scanning(scheduler) => {
                proof {
                    crate::scheduler_laws::lemma_completion_valid(scheduler@, index as int, result);
                }
                scheduler.complete(index, result);
            },
            _ => {},
        }
    }

    /// The workspace at a position of the enumeration.
    pub fn workspace(&self, index: usize) -> (r: Option<&str>)
        ensures
            match r {
                Some(name) => self@ is Scanning && index < self@->Scanning_0.workspaces.len()
                    && name@ == self@->Scanning_0.workspaces[index as int]@,
                None => !(self@ is Scanning) || index >= self@->Scanning_0.workspaces.len(),
            },
    {
        match &self.stage {
            Stage::Scanning(scheduler) => scheduler.workspace(index),
            _ => None,
        }
    }

    /// How many scans are running. It is never more than there are slots.
    pub fn active(&self) -> (n: usize)
        requires
            self.wf(),
        ensures
            n == match self@ {
                ScanState::Scanning(s) => crate::scheduler::running(s.tasks),
                _ => 0,
            },
            self@ is Scanning ==> n <= self@->Scanning_0.limit,
    {
        match &self.stage {
            Stage::Scanning(scheduler) => scheduler.active(),
            _ => 0,
        }
    }

    /// The outcome of the scan, once it is over.
    pub fn outcome(&self) -> (r: Option<Result<Vec<WorkspaceResult>, ScanError>>)
        requires
            self.wf(),
        ensures
            match r {
                None => self@.outcome() is None,
                Some(Ok(results)) => self@.outcome() == Some(
                    Ok::<Seq<WorkspaceResult>, ScanError>(results@),
                ),
                Some(Err(error)) => self@.outcome() == Some(
                    Err::<Seq<WorkspaceResult>, ScanError>(error),
                ),
            },
    {
        match &self.stage {
            Stage::Scanning(scheduler) => scheduler.outcome(),
            Stage::Failed(error) => Some(Err(copy_scan_error(error))),
            _ => None,
        }
    }
}

} // verus!
