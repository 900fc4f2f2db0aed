//! What holds of every run of a plan.

use vstd::prelude::*;
use crate::plan::{
    action_of, after_byte, after_end, after_event, after_events, after_launch, after_output,
    after_record, bump, initial_state, lemma_output_phase, record_changes, verdict, well_formed,
    whole_run, EventView, Phase, RunnerAction, RunnerState, CHANGES_PRESENT, RECORD_END,
};

verus! {

/// The records of a whole output: the runs of bytes between end bytes, with
/// `pending` in front of the first, and a last run without an end byte where it
/// is not empty.
pub open spec fn split_records(pending: Seq<u8>, bytes: Seq<u8>) -> Seq<Seq<u8>>
    decreases bytes.len(),
{
    if bytes.len() == 0 {
        if pending.len() > 0 {
            seq![pending]
        } else {
            Seq::empty()
        }
    } else if bytes[0] == RECORD_END {
        seq![pending] + split_records(Seq::empty(), bytes.drop_first())
    } else {
        split_records(pending.push(bytes[0]), bytes.drop_first())
    }
}

/// Whether some record describes a changed resource.
pub open spec fn drift_observed(records: Seq<Seq<u8>>) -> bool {
    exists|k: int| 0 <= k < records.len() && record_changes(#[trigger] records[k]) >= 1
}

/// How many records are examined: all up to and including the first that
/// describes a changed resource.
pub open spec fn examined(records: Seq<Seq<u8>>) -> nat
    decreases records.len(),
{
    if records.len() == 0 {
        0
    } else if record_changes(records[0]) >= 1 {
        1
    } else {
        1 + examined(records.drop_first())
    }
}

/// How many changed resources are counted: those of the first record that
/// describes any.
pub open spec fn counted(records: Seq<Seq<u8>>) -> nat
    decreases records.len(),
{
    if records.len() == 0 {
        0
    } else if record_changes(records[0]) >= 1 {
        record_changes(records[0])
    } else {
        counted(records.drop_first())
    }
}

/// A record counter `n` steps on.
pub open spec fn bumped(count: nat, n: nat) -> nat
    decreases n,
{
    if n == 0 {
        count
    } else {
        bumped(bump(count), (n - 1) as nat)
    }
}

/// Every step keeps a state well formed.
pub proof fn lemma_event_keeps_well_formed(s: RunnerState, event: EventView)
    requires
        well_formed(s),
    ensures
        well_formed(after_event(s, event)),
{
    match event {
        EventView::Output(bytes) => {
            lemma_output_keeps_well_formed(s, bytes);
        },
        _ => {},
    }
}

/// Reading output keeps a state well formed.
pub proof fn lemma_output_keeps_well_formed(s: RunnerState, bytes: Seq<u8>)
    requires
        well_formed(s),
    ensures
        well_formed(after_output(s, bytes)),
    decreases bytes.len(),
{
    if s.phase == Phase::Streaming && bytes.len() > 0 {
        lemma_output_keeps_well_formed(after_byte(s, bytes[0]), bytes.drop_first());
    }
}

/// Whatever happens to the tool, and in whatever order the caller reports it,
/// the run is in a well-formed state.
pub proof fn lemma_reachable_well_formed(events: Seq<EventView>)
    ensures
        well_formed(after_events(initial_state(), events)),
    decreases events.len(),
{
    if events.len() > 0 {
        lemma_reachable_well_formed(events.drop_last());
        lemma_event_keeps_well_formed(
            after_events(initial_state(), events.drop_last()),
            events.last(),
        );
    }
}

/// Early exit: once a changed resource was counted, the run asks for the tool
/// to be terminated (or, after its exit, for nothing more), and output that is
/// still handed over is not read: the state, and with it the number of records
/// examined, stays as it is.
pub proof fn lemma_no_reading_after_drift(s: RunnerState, bytes: Seq<u8>)
    requires
        well_formed(s),
        s.changed >= 1,
    ensures
        after_output(s, bytes) == s,
        after_end(s) == s,
        action_of(s) == RunnerAction::Kill || action_of(s) == RunnerAction::Report,
        s.phase == Phase::Deciding ==> action_of(s) == RunnerAction::Kill,
{
    lemma_output_phase(s, bytes);
}

/// A run is asked to terminate the tool exactly while it has counted a changed
/// resource and the tool has not yet exited.
pub proof fn lemma_kill_iff_drift_seen(s: RunnerState)
    requires
        well_formed(s),
    ensures
        action_of(s) == RunnerAction::Kill <==> (s.changed >= 1 && s.phase != Phase::Terminated),
{
}

/// How the output is cut into pieces does not matter: reading `a` and then `b`
/// ends where reading both at once ends.
pub proof fn lemma_output_concat(s: RunnerState, a: Seq<u8>, b: Seq<u8>)
    ensures
        after_output(after_output(s, a), b) == after_output(s, a + b),
    decreases a.len(),
{
    if s.phase != Phase::Streaming {
        lemma_output_phase(s, a);
        lemma_output_phase(s, b);
        lemma_output_phase(s, a + b);
    } else if a.len() == 0 {
        assert(a + b =~= b);
    } else {
        assert((a + b)[0] == a[0]);
        assert((a + b).drop_first() =~= a.drop_first() + b);
        lemma_output_concat(after_byte(s, a[0]), a.drop_first(), b);
    }
}

/// Output behind the record that ended the reading changes nothing.
pub proof fn lemma_rest_is_dropped(s: RunnerState, a: Seq<u8>, b: Seq<u8>)
    requires
        after_output(s, a).phase != Phase::Streaming,
    ensures
        after_output(s, a + b) == after_output(s, a),
{
    lemma_output_concat(s, a, b);
    lemma_output_phase(after_output(s, a), b);
}

proof fn lemma_bumped_step(count: nat, n: nat)
    ensures
        bumped(bump(count), n) == bump(bumped(count, n)),
    decreases n,
{
    if n > 0 {
        lemma_bumped_step(bump(count), (n - 1) as nat);
    }
}

/// Reading output to its end, from a state in which reading goes on: the
/// records are examined in order up to the first that describes a changed
/// resource, and that record's changed resources are the ones counted.
pub proof fn lemma_reading_by_records(s: RunnerState, bytes: Seq<u8>)
    requires
        s.phase == Phase::Streaming,
        s.changed == 0,
    ensures
        ({
            let t = after_end(after_output(s, bytes));
            let records = split_records(s.pending, bytes);
            &&& t.phase == Phase::Deciding
            &&& t.changed == counted(records)
            &&& t.records == bumped(s.records, examined(records))
            &&& t.exit_code == s.exit_code
        }),
    decreases bytes.len(),
{
    let records = split_records(s.pending, bytes);
    if bytes.len() == 0 {
        if s.pending.len() > 0 {
            assert(records[0] == s.pending);
            assert(records.drop_first() =~= Seq::<Seq<u8>>::empty());
            reveal_with_fuel(examined, 2);
            reveal_with_fuel(counted, 2);
            reveal_with_fuel(bumped, 2);
        }
    } else if bytes[0] == RECORD_END {
        let next = after_record(s);
        let rest = split_records(Seq::empty(), bytes.drop_first());
        assert(records[0] == s.pending);
        assert(records.drop_first() =~= rest);
        if record_changes(s.pending) >= 1 {
            lemma_output_phase(next, bytes.drop_first());
            reveal_with_fuel(bumped, 2);
        } else {
            lemma_reading_by_records(next, bytes.drop_first());
            lemma_bumped_step(s.records, examined(rest));
            assert(bumped(s.records, examined(records)) == bumped(
                bump(s.records),
                examined(rest),
            ));
        }
    } else {
        lemma_reading_by_records(after_byte(s, bytes[0]), bytes.drop_first());
    }
}

/// Changed resources are counted exactly where some record describes one.
pub proof fn lemma_counted_iff_observed(records: Seq<Seq<u8>>)
    ensures
        counted(records) >= 1 <==> drift_observed(records),
    decreases records.len(),
{
    if records.len() > 0 {
        let rest = records.drop_first();
        lemma_counted_iff_observed(rest);
        if record_changes(records[0]) >= 1 {
        } else if drift_observed(rest) {
            let k = choose|k: int| 0 <= k < rest.len() && record_changes(#[trigger] rest[k]) >= 1;
            assert(records[k + 1] == rest[k]);
        } else if drift_observed(records) {
            let k = choose|k: int|
                0 <= k < records.len() && record_changes(#[trigger] records[k]) >= 1;
            assert(rest[k - 1] == records[k]);
        }
    }
}

/// A whole run, record by record: it counts the changed resources of the first
/// record of the output that describes any, and has examined the records up to
/// that one and none behind it.
pub proof fn lemma_whole_run_by_records(output: Seq<u8>, exit_code: Option<i32>)
    ensures
        ({
            let t = whole_run(output, exit_code);
            let records = split_records(Seq::empty(), output);
            &&& t.phase == Phase::Terminated
            &&& t.exit_code == exit_code
            &&& t.changed == counted(records)
            &&& t.records == bumped(0, examined(records))
        }),
{
    lemma_reading_by_records(after_launch(initial_state()), output);
}

/// The verdict of a whole run is drift if and only if some record of the
/// output describes a changed resource or the tool left with the exit code
/// reserved for changes.
pub proof fn lemma_drift_iff_observed(output: Seq<u8>, exit_code: Option<i32>)
    ensures
        verdict(exit_code, whole_run(output, exit_code).changed) <==> (drift_observed(
            split_records(Seq::empty(), output),
        ) || exit_code == Some(CHANGES_PRESENT)),
{
    lemma_whole_run_by_records(output, exit_code);
    lemma_counted_iff_observed(split_records(Seq::empty(), output));
}

} // verus!
