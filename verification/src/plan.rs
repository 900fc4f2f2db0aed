//! Running a plan: reading the tool's output record by record, stopping at the
//! first sign of drift, and the verdict for one workspace.

use vstd::prelude::*;
use crate::json::{documents, json_document, Document, Json};

verus! {

/// The exit code that the tool reserves for "changes present".
pub const CHANGES_PRESENT: i32 = 2;

/// The byte that ends a record of the tool's output.
pub const RECORD_END: u8 = 0x0a;

/// Whether an action list is exactly the one action `no-op`.
pub open spec fn only_noop(actions: Seq<Document>) -> bool {
    actions.len() == 1 && actions[0].text() == Some("no-op"@)
}

/// The action list that a resource entry declares under `change.actions`.
pub open spec fn declared_actions(resource: Document) -> Option<Seq<Document>> {
    match resource.member("change"@) {
        Some(change) => match change.member("actions"@) {
            Some(actions) => actions.elements(),
            None => None,
        },
        None => None,
    }
}

/// Whether a resource entry counts as changed: it declares an action list, and
/// that list is anything but the single action `no-op`.
pub open spec fn is_changed(resource: Document) -> bool {
    match declared_actions(resource) {
        Some(actions) => !only_noop(actions),
        None => false,
    }
}

/// How many of `resources` count as changed.
pub open spec fn count_changed(resources: Seq<Document>) -> nat
    decreases resources.len(),
{
    if resources.len() == 0 {
        0
    } else {
        count_changed(resources.drop_last()) + if is_changed(resources.last()) {
            1nat
        } else {
            0nat
        }
    }
}

/// How many changed resources a document describes under `resource_changes`.
pub open spec fn changed_resources(doc: Document) -> nat {
    match doc.member("resource_changes"@) {
        Some(list) => match list.elements() {
            Some(resources) => count_changed(resources),
            None => 0,
        },
        None => 0,
    }
}

/// How many changed resources one record of output describes; a record that is
/// not a JSON document describes none.
pub open spec fn record_changes(record: Seq<u8>) -> nat {
    match json_document(record) {
        Some(doc) => changed_resources(doc),
        None => 0,
    }
}

/// Whether an action list is exactly the one action `no-op`.
pub fn is_only_noop(actions: &Vec<Json>) -> (r: bool)
    ensures
        r == only_noop(documents(actions@)),
{
    if actions.len() != 1 {
        return false;
    }
    match actions[0].as_str() {
        Some(s) => crate::text::same_text(s, "no-op"),
        None => false,
    }
}

/// Whether a resource entry counts as changed.
pub fn resource_changed(resource: &Json) -> (r: bool)
    ensures
        r == is_changed(resource@),
{
    let change = match resource.get("change") {
        Some(change) => change,
        None => { return false; },
    };
    let actions = match change.get("actions") {
        Some(actions) => actions,
        None => { return false; },
    };
    match actions.as_array() {
        Some(list) => !is_only_noop(list),
        None => false,
    }
}

/// Counts the changed resources that a document describes.
pub fn count_changes(doc: &Json) -> (n: u64)
    ensures
        n == changed_resources(doc@),
{
    let list = match doc.get("resource_changes") {
        Some(list) => list,
        None => { return 0; },
    };
    let resources = match list.as_array() {
        Some(resources) => resources,
        None => { return 0; },
    };
    let mut n: u64 = 0;
    let mut i: usize = 0;
    while i < resources.len()
        invariant
            i <= resources.len(),
            n <= i,
            n == count_changed(documents(resources@).subrange(0, i as int)),
        decreases resources.len() - i,
    {
        assert(documents(resources@).subrange(0, i + 1).drop_last() =~= documents(
            resources@,
        ).subrange(0, i as int));
        if resource_changed(&resources[i]) {
            n += 1;
        }
        i += 1;
    }
    assert(documents(resources@).subrange(0, i as int) =~= documents(resources@));
    n
}

/// Counts the changed resources that one record of output describes.
pub fn changes_in_record(record: &[u8]) -> (n: u64)
    ensures
        n == record_changes(record@),
{
    match Json::parse(record) {
        Some(doc) => count_changes(&doc),
        None => 0,
    }
}

/// Where a run stands.
#[derive(Clone, Copy, Debug, PartialEq, Eq, Structural)]
pub enum Phase {
    /// The tool has not been launched.
    Starting,
    /// The tool runs and its output is read.
    Streaming,
    /// Reading is over: either drift was seen, or the output ended.
    Deciding,
    /// The tool has exited.
    Terminated,
}

/// What the caller has to do next.
#[derive(Clone, Copy, Debug, PartialEq, Eq, Structural)]
pub enum RunnerAction {
    /// Launch the tool.
    Launch,
    /// Read more output and hand it over.
    Read,
    /// Stop reading, terminate the tool, and report its exit status.
    Kill,
    /// Let the tool end by itself and report its exit status.
    Wait,
    /// Nothing: the run is over and the report can be taken.
    Report,
}

/// What happened to the tool.
#[derive(Clone, Debug, PartialEq, Eq)]
pub enum RunnerEvent {
    /// It was launched.
    Launched,
    /// It wrote these bytes.
    Output(Vec<u8>),
    /// Its output has ended.
    EndOfOutput,
    /// It has exited, with this exit code where it has one.
    Exited(Option<i32>),
}

/// An event as a mathematical value.
pub enum EventView {
    Launched,
    Output(Seq<u8>),
    EndOfOutput,
    Exited(Option<i32>),
}

impl View for RunnerEvent {
    type V = EventView;

    open spec fn view(&self) -> EventView {
        match self {
            RunnerEvent::Launched => EventView::Launched,
            RunnerEvent::Output(chunk) => EventView::Output(chunk@),
            RunnerEvent::EndOfOutput => EventView::EndOfOutput,
            RunnerEvent::Exited(code) => EventView::Exited(*code),
        }
    }
}

/// The state of a run as a mathematical value.
pub struct RunnerState {
    pub phase: Phase,
    /// The bytes of the record that is being read.
    pub pending: Seq<u8>,
    /// How many records were examined.
    pub records: nat,
    /// How many changed resources were counted.
    pub changed: nat,
    /// The exit code, once the tool has exited; `None` where it ended without one.
    pub exit_code: Option<i32>,
}

/// The state before the tool is launched.
pub open spec fn initial_state() -> RunnerState {
    RunnerState {
        phase: Phase::Starting,
        pending: Seq::empty(),
        records: 0,
        changed: 0,
        exit_code: None,
    }
}

/// What holds of every state that a run can reach: nothing was read before
/// the launch, no changed resource was counted while reading still goes on,
/// and an exit code is known only once the tool has exited.
pub open spec fn well_formed(s: RunnerState) -> bool {
    &&& s.phase == Phase::Starting ==> s.pending.len() == 0 && s.records == 0
    &&& s.phase == Phase::Starting || s.phase == Phase::Streaming ==> s.changed == 0
    &&& s.phase != Phase::Terminated ==> s.exit_code is None
}

/// A record counter one step on; it stays where it is once it has reached the
/// largest `u64`.
pub open spec fn bump(n: nat) -> nat {
    if n < u64::MAX {
        n + 1
    } else {
        n
    }
}

/// The state after the tool was launched.
pub open spec fn after_launch(s: RunnerState) -> RunnerState {
    if s.phase == Phase::Starting {
        RunnerState { phase: Phase::Streaming, ..s }
    } else {
        s
    }
}

/// The state after the pending record was examined: reading goes on only if
/// the record describes no changed resource.
pub open spec fn after_record(s: RunnerState) -> RunnerState {
    let n = record_changes(s.pending);
    RunnerState {
        phase: if n >= 1 {
            Phase::Deciding
        } else {
            Phase::Streaming
        },
        pending: Seq::empty(),
        records: bump(s.records),
        changed: n,
        exit_code: s.exit_code,
    }
}

/// The state after one byte of output.
pub open spec fn after_byte(s: RunnerState, b: u8) -> RunnerState {
    if b == RECORD_END {
        after_record(s)
    } else {
        RunnerState { pending: s.pending.push(b), ..s }
    }
}

/// The state after a run of output bytes. Outside `Streaming` nothing is read.
pub open spec fn after_output(s: RunnerState, bytes: Seq<u8>) -> RunnerState
    decreases bytes.len(),
{
    if s.phase != Phase::Streaming || bytes.len() == 0 {
        s
    } else {
        after_output(after_byte(s, bytes[0]), bytes.drop_first())
    }
}

/// The state after the output has ended: a last record without its end byte
/// is examined like any other.
pub open spec fn after_end(s: RunnerState) -> RunnerState {
    if s.phase != Phase::Streaming {
        s
    } else if s.pending.len() > 0 {
        RunnerState { phase: Phase::Deciding, ..after_record(s) }
    } else {
        RunnerState { phase: Phase::Deciding, ..s }
    }
}

/// The state after the tool has exited.
pub open spec fn after_exit(s: RunnerState, code: Option<i32>) -> RunnerState {
    if s.phase == Phase::Deciding {
        RunnerState { phase: Phase::Terminated, exit_code: code, ..s }
    } else {
        s
    }
}

/// The state after one event.
pub open spec fn after_event(s: RunnerState, event: EventView) -> RunnerState {
    match event {
        EventView::Launched => after_launch(s),
        EventView::Output(bytes) => after_output(s, bytes),
        EventView::EndOfOutput => after_end(s),
        EventView::Exited(code) => after_exit(s, code),
    }
}

/// The state after a series of events, the first of them first.
pub open spec fn after_events(s: RunnerState, events: Seq<EventView>) -> RunnerState
    decreases events.len(),
{
    if events.len() == 0 {
        s
    } else {
        after_event(after_events(s, events.drop_last()), events.last())
    }
}

/// What a state asks of the caller.
pub open spec fn action_of(s: RunnerState) -> RunnerAction {
    match s.phase {
        Phase::Starting => RunnerAction::Launch,
        Phase::Streaming => RunnerAction::Read,
        Phase::Deciding => if s.changed >= 1 {
            RunnerAction::Kill
        } else {
            RunnerAction::Wait
        },
        Phase::Terminated => RunnerAction::Report,
    }
}

/// Whether a run shows drift: the tool left with the reserved exit code, or at
/// least one changed resource was counted.
pub open spec fn verdict(exit_code: Option<i32>, changed: nat) -> bool {
    exit_code == Some(CHANGES_PRESENT) || changed >= 1
}

/// The run of one plan, driven by the caller: it launches the tool, hands over
/// what it reads, and does what each step asks for.
pub struct PlanRunner {
    phase: Phase,
    pending: Vec<u8>,
    records: u64,
    changed: u64,
    exit_code: Option<i32>,
}

impl View for PlanRunner {
    type V = RunnerState;

    closed spec fn view(&self) -> RunnerState {
        RunnerState {
            phase: self.phase,
            pending: self.pending@,
            records: self.records as nat,
            changed: self.changed as nat,
            exit_code: self.exit_code,
        }
    }
}

impl PlanRunner {
    /// A run that has not started.
    pub fn new() -> (r: PlanRunner)
        ensures
            r@ == initial_state(),
            well_formed(r@),
    {
        PlanRunner { phase: Phase::Starting, pending: Vec::new(), records: 0, changed: 0, exit_code: None }
    }

    /// Where the run stands.
    pub fn phase(&self) -> (p: Phase)
        ensures
            p == self@.phase,
    {
        self.phase
    }

    /// How many records were examined.
    pub fn records(&self) -> (n: u64)
        ensures
            n == self@.records,
    {
        self.records
    }

    /// How many changed resources were counted.
    pub fn changed(&self) -> (n: u64)
        ensures
            n == self@.changed,
    {
        self.changed
    }

    /// What the caller has to do next.
    pub fn action(&self) -> (a: RunnerAction)
        ensures
            a == action_of(self@),
    {
        match self.phase {
            Phase::Starting => RunnerAction::Launch,
            Phase::Streaming => RunnerAction::Read,
            Phase::Deciding => if self.changed >= 1 {
                RunnerAction::Kill
            } else {
                RunnerAction::Wait
            },
            Phase::Terminated => RunnerAction::Report,
        }
    }

    /// Records that the tool was launched.
    pub fn launched(&mut self) -> (a: RunnerAction)
        ensures
            final(self)@ == after_launch(old(self)@),
            a == action_of(final(self)@),
    {
        if self.phase == Phase::Starting {
            self.phase = Phase::Streaming;
        }
        self.action()
    }

    fn close_record(&mut self)
        requires
            old(self)@.phase == Phase::Streaming,
        ensures
            final(self)@ == after_record(old(self)@),
    {
        let n = changes_in_record(self.pending.as_slice());
        self.pending.clear();
        if self.records < u64::MAX {
            self.records += 1;
        }
        if n >= 1 {
            self.phase = Phase::Deciding;
        }
        self.changed = n;
    }

    /// Takes in what happened to the tool and says what to do next.
    pub fn step(&mut self, event: &RunnerEvent) -> (a: RunnerAction)
        ensures
            final(self)@ == after_event(old(self)@, event@),
            a == action_of(final(self)@),
    {
        match event {
            RunnerEvent::Launched => self.launched(),
            RunnerEvent::Output(chunk) => self.feed(chunk.as_slice()),
            RunnerEvent::EndOfOutput => self.end_of_stream(),
            RunnerEvent::Exited(code) => self.exited(*code),
        }
    }

    /// Takes in output that was read from the tool. Each complete record is
    /// examined as soon as its end byte arrives; the first one that describes
    /// a changed resource ends the reading, and what follows it is dropped
    /// unread.
    pub fn feed(&mut self, chunk: &[u8]) -> (a: RunnerAction)
        ensures
            final(self)@ == after_output(old(self)@, chunk@),
            a == action_of(final(self)@),
    {
        let mut i: usize = 0;
        assert(chunk@.subrange(0, chunk@.len() as int) =~= chunk@);
        while i < chunk.len() && self.phase == Phase::Streaming
            invariant
                i <= chunk.len(),
                after_output(old(self)@, chunk@) == after_output(
                    self@,
                    chunk@.subrange(i as int, chunk@.len() as int),
                ),
            decreases chunk.len() - i,
        {
            let b = chunk[i];
            proof {
                let rest = chunk@.subrange(i as int, chunk@.len() as int);
                assert(rest[0] == b);
                assert(rest.drop_first() =~= chunk@.subrange(i + 1, chunk@.len() as int));
            }
            if b == RECORD_END {
                self.close_record();
            } else {
                self.pending.push(b);
            }
            i += 1;
        }
        self.action()
    }

    /// Records that the output has ended.
    pub fn end_of_stream(&mut self) -> (a: RunnerAction)
        ensures
            final(self)@ == after_end(old(self)@),
            a == action_of(final(self)@),
    {
        if self.phase == Phase::Streaming {
            if self.pending.len() > 0 {
                self.close_record();
            }
            self.phase = Phase::Deciding;
        }
        self.action()
    }

    /// Records that the tool has exited, with its exit code where it has one.
    pub fn exited(&mut self, code: Option<i32>) -> (a: RunnerAction)
        ensures
            final(self)@ == after_exit(old(self)@, code),
            a == action_of(final(self)@),
    {
        if self.phase == Phase::Deciding {
            self.phase = Phase::Terminated;
            self.exit_code = code;
        }
        self.action()
    }

    /// The report of a finished run; `None` while the tool has not exited.
    /// `terraform_version` is `None` where the version could not be found out.
    pub fn report(&self, duration_ms: u128, terraform_version: Option<String>) -> (r: Option<
        DriftReport,
    >)
        ensures
            r is Some <==> self@.phase == Phase::Terminated,
            r is Some ==> report_matches(r->0, self@, duration_ms, terraform_version),
    {
        if self.phase == Phase::Terminated {
            Some(
                DriftReport {
                    changed_resources: self.changed,
                    drift: drift_verdict(self.exit_code, self.changed),
                    duration_ms,
                    terraform_version: version_or_unknown(terraform_version),
                },
            )
        } else {
            None
        }
    }
}

/// The result of the scan of one workspace.
#[derive(Clone, Debug, PartialEq, Eq)]
pub struct DriftReport {
    pub changed_resources: u64,
    pub drift: bool,
    pub duration_ms: u128,
    pub terraform_version: String,
}

/// The version text of a report: empty where the version is not known.
pub open spec fn version_text(version: Option<String>) -> Seq<char> {
    match version {
        Some(v) => v@,
        None => Seq::empty(),
    }
}

/// Whether `report` is the report of the finished run `s`.
pub open spec fn report_matches(
    report: DriftReport,
    s: RunnerState,
    duration_ms: u128,
    version: Option<String>,
) -> bool {
    &&& report.changed_resources == s.changed
    &&& report.drift == verdict(s.exit_code, s.changed)
    &&& report.duration_ms == duration_ms
    &&& report.terraform_version@ == version_text(version)
}

/// The state in which a whole run ends: the tool is launched, writes `output`,
/// and exits with `exit_code`.
pub open spec fn whole_run(output: Seq<u8>, exit_code: Option<i32>) -> RunnerState {
    after_exit(after_end(after_output(after_launch(initial_state()), output)), exit_code)
}

/// The verdict for one workspace.
pub fn drift_verdict(exit_code: Option<i32>, changed: u64) -> (drift: bool)
    ensures
        drift == verdict(exit_code, changed as nat),
        drift <==> (exit_code == Some(CHANGES_PRESENT) || changed >= 1),
{
    let reserved = match exit_code {
        Some(code) => code == CHANGES_PRESENT,
        None => false,
    };
    reserved || changed >= 1
}

/// The version to report: the one found out, or the empty text.
pub fn version_or_unknown(version: Option<String>) -> (v: String)
    ensures
        v@ == version_text(version),
{
    match version {
        Some(v) => v,
        None => String::new(),
    }
}

/// The arguments with which the tool is launched for a plan: no questions, no
/// colour, live state refreshed, output as JSON records, and the reserved exit
/// code where changes are present.
pub fn plan_arguments() -> (args: Vec<String>)
    ensures
        args.deep_view() == seq![
            "plan"@,
            "-detailed-exitcode"@,
            "-input=false"@,
            "-no-color"@,
            "-refresh=true"@,
            "-json"@,
        ],
{
    let mut args: Vec<String> = Vec::new();
    args.push(String::from_str("plan"));
    args.push(String::from_str("-detailed-exitcode"));
    args.push(String::from_str("-input=false"));
    args.push(String::from_str("-no-color"));
    args.push(String::from_str("-refresh=true"));
    args.push(String::from_str("-json"));
    assert(args.deep_view() =~= seq![
        "plan"@,
        "-detailed-exitcode"@,
        "-input=false"@,
        "-no-color"@,
        "-refresh=true"@,
        "-json"@,
    ]);
    args
}

/// The name of the environment variable that tells the tool where the
/// workspace's state lies.
pub fn state_variable() -> (name: &'static str)
    ensures
        name@ == "TF_STATE"@,
{
    "TF_STATE"
}

/// The report of a run that is already over: the tool wrote `output` and left
/// with `exit_code`. The output is read as a running tool's would be, so
/// nothing behind the first record that describes a changed resource counts.
pub fn detect_drift(
    output: &[u8],
    exit_code: Option<i32>,
    duration_ms: u128,
    terraform_version: Option<String>,
) -> (report: DriftReport)
    ensures
        report_matches(report, whole_run(output@, exit_code), duration_ms, terraform_version),
{
    let mut runner = PlanRunner::new();
    runner.launched();
    runner.feed(output);
    runner.end_of_stream();
    runner.exited(exit_code);
    proof {
        lemma_whole_run_terminates(output@, exit_code);
    }
    DriftReport {
        changed_resources: runner.changed(),
        drift: drift_verdict(exit_code, runner.changed()),
        duration_ms,
        terraform_version: version_or_unknown(terraform_version),
    }
}

/// Reading output never leaves a run anywhere but in `Streaming` or, once a
/// changed resource was counted, in `Deciding`; outside `Streaming` it changes
/// nothing.
pub proof fn lemma_output_phase(s: RunnerState, bytes: Seq<u8>)
    ensures
        s.phase != Phase::Streaming ==> after_output(s, bytes) == s,
        s.phase == Phase::Streaming ==> {
            let t = after_output(s, bytes);
            &&& t.exit_code == s.exit_code
            &&& (t.phase == Phase::Streaming || (t.phase == Phase::Deciding && t.changed >= 1))
        },
    decreases bytes.len(),
{
    if s.phase == Phase::Streaming && bytes.len() > 0 {
        lemma_output_phase(after_byte(s, bytes[0]), bytes.drop_first());
    }
}

/// A whole run ends in `Terminated`, with the exit code that the tool left
/// with.
pub proof fn lemma_whole_run_terminates(output: Seq<u8>, exit_code: Option<i32>)
    ensures
        whole_run(output, exit_code).phase == Phase::Terminated,
        whole_run(output, exit_code).exit_code == exit_code,
{
    lemma_output_phase(after_launch(initial_state()), output);
}

} // verus!
