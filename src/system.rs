//! A model of a whole search: any number of workers, each deciding by
//! `worker_next`, interleaved in any order over one shared state, with
//! interrupts at any moment.
use vstd::prelude::*;
use crate::shared::{apply_op, SharedModel, SharedOp};
use crate::worker::{worker_next, WorkerAction, WorkerEvent, WorkerPhase};

verus! {

/// The state of a search: the shared values, each worker's phase, and the
/// numbers of matches reported and keys saved so far.
pub struct SystemModel {
    pub shared: SharedModel,
    pub workers: Seq<WorkerPhase>,
    pub reported: nat,
    pub persisted: nat,
}

/// What happens next: a worker takes its next step (with `matched` the
/// outcome of its test, when it tests one), or an interrupt arrives.
pub enum SystemInput {
    Worker { index: int, matched: bool },
    Interrupt,
}

/// A fresh search with `n` workers at the entry of their loops.
pub open spec fn system_start(n: nat) -> SystemModel {
    SystemModel {
        shared: SharedModel { total: 0, running: true },
        workers: Seq::new(n, |i: int| WorkerPhase::AtLoopEntry),
        reported: 0,
        persisted: 0,
    }
}

/// The shared operation a worker in `phase` performs, and the event it gets
/// back from state `m`.
pub open spec fn worker_io(m: SharedModel, phase: WorkerPhase, matched: bool) -> (SharedOp, WorkerEvent) {
    match phase {
        WorkerPhase::AtLoopEntry => (SharedOp::Read, WorkerEvent::FlagRead { running: m.running }),
        WorkerPhase::Testing => (SharedOp::Increment, WorkerEvent::Tested { matched }),
        WorkerPhase::Claiming => (SharedOp::Claim, WorkerEvent::ClaimResult { won: m.running }),
        WorkerPhase::Finished => (SharedOp::Read, WorkerEvent::FlagRead { running: false }),
    }
}

/// The state after `input`. An input for a worker that does not exist, or
/// has finished, changes nothing.
pub open spec fn system_step(streaming: bool, s: SystemModel, input: SystemInput) -> SystemModel {
    match input {
        SystemInput::Interrupt => SystemModel { shared: apply_op(s.shared, SharedOp::Interrupt), ..s },
        SystemInput::Worker { index, matched } => if 0 <= index < s.workers.len()
            && s.workers[index] != WorkerPhase::Finished {
            let (op, event) = worker_io(s.shared, s.workers[index], matched);
            let (next, action) = worker_next(streaming, s.workers[index], event);
            SystemModel {
                shared: apply_op(s.shared, op),
                workers: s.workers.update(index, next),
                reported: s.reported + if action is ReportAndContinue || action is ReportAndClaim {
                    1nat
                } else {
                    0nat
                },
                persisted: s.persisted + if action is PersistAndStop { 1nat } else { 0nat },
            }
        } else {
            s
        },
    }
}

/// The state after the inputs `inputs`, in order.
pub open spec fn system_run(streaming: bool, s: SystemModel, inputs: Seq<SystemInput>) -> SystemModel
    decreases inputs.len(),
{
    if inputs.len() == 0 {
        s
    } else {
        system_run(streaming, system_step(streaming, s, inputs[0]), inputs.drop_first())
    }
}

/// Nothing has been saved while the search runs, and at most one key once
/// it stopped; a streaming search saves nothing.
pub open spec fn system_inv(streaming: bool, s: SystemModel) -> bool {
    &&& s.persisted <= 1
    &&& s.shared.running ==> s.persisted == 0
    &&& streaming ==> s.persisted == 0
    &&& streaming ==> forall|i: int| 0 <= i < s.workers.len() ==> s.workers[i] != WorkerPhase::Claiming
}

proof fn lemma_step_keeps_inv(streaming: bool, s: SystemModel, input: SystemInput)
    requires
        system_inv(streaming, s),
    ensures
        system_inv(streaming, system_step(streaming, s, input)),
{
    let t = system_step(streaming, s, input);
    if let SystemInput::Worker { index, matched } = input {
        if 0 <= index < s.workers.len() && s.workers[index] != WorkerPhase::Finished {
            assert forall|i: int| streaming && 0 <= i < t.workers.len() implies t.workers[i]
                != WorkerPhase::Claiming by {
                if i != index {
                    assert(t.workers[i] == s.workers[i]);
                }
            }
        }
    }
}

/// One winner: however many workers search without streaming, interleaved
/// in any order and interrupted at any moment, at most one key is ever
/// saved, and only once the running flag is clear. A streaming search never
/// saves a key.
pub proof fn lemma_at_most_one_saved(streaming: bool, n: nat, inputs: Seq<SystemInput>)
    ensures
        system_run(streaming, system_start(n), inputs).persisted <= 1,
        system_run(streaming, system_start(n), inputs).shared.running
            ==> system_run(streaming, system_start(n), inputs).persisted == 0,
        streaming ==> system_run(streaming, system_start(n), inputs).persisted == 0,
{
    lemma_run_keeps_inv(streaming, system_start(n), inputs);
}

proof fn lemma_run_keeps_inv(streaming: bool, s: SystemModel, inputs: Seq<SystemInput>)
    requires
        system_inv(streaming, s),
    ensures
        system_inv(streaming, system_run(streaming, s, inputs)),
    decreases inputs.len(),
{
    if inputs.len() > 0 {
        lemma_step_keeps_inv(streaming, s, inputs[0]);
        lemma_run_keeps_inv(streaming, system_step(streaming, s, inputs[0]), inputs.drop_first());
    }
}

/// Prompt shutdown: once the running flag is clear, whatever the tests
/// return, each worker finishes within three of its own steps.
pub proof fn lemma_stop_within_three_steps(
    streaming: bool,
    s: SystemModel,
    index: int,
    m1: bool,
    m2: bool,
    m3: bool,
)
    requires
        !s.shared.running,
        0 <= index < s.workers.len(),
    ensures
        ({
            let s1 = system_step(streaming, s, SystemInput::Worker { index, matched: m1 });
            let s2 = system_step(streaming, s1, SystemInput::Worker { index, matched: m2 });
            let s3 = system_step(streaming, s2, SystemInput::Worker { index, matched: m3 });
            s3.workers[index] == WorkerPhase::Finished
        }),
{
}

/// Whether `inputs` holds no interrupt.
pub open spec fn no_interrupt(inputs: Seq<SystemInput>) -> bool {
    forall|i: int| 0 <= i < inputs.len() ==> !(#[trigger] inputs[i] is Interrupt)
}

/// Whether every test among `inputs` fails.
pub open spec fn never_matches(inputs: Seq<SystemInput>) -> bool {
    forall|i: int| 0 <= i < inputs.len() ==> !(#[trigger] inputs[i] matches SystemInput::Worker { matched: true, .. })
}

proof fn lemma_no_interrupt_inv(s: SystemModel, inputs: Seq<SystemInput>)
    requires
        system_inv(false, s),
        s.shared.running <==> s.persisted == 0,
        no_interrupt(inputs),
    ensures
        system_run(false, s, inputs).shared.running <==> system_run(false, s, inputs).persisted == 0,
        system_inv(false, system_run(false, s, inputs)),
    decreases inputs.len(),
{
    if inputs.len() > 0 {
        assert(!(inputs[0] is Interrupt));
        let t = system_step(false, s, inputs[0]);
        lemma_step_keeps_inv(false, s, inputs[0]);
        assert(no_interrupt(inputs.drop_first())) by {
            assert forall|i: int| 0 <= i < inputs.drop_first().len() implies !(
            #[trigger] inputs.drop_first()[i] is Interrupt) by {
                assert(inputs.drop_first()[i] == inputs[i + 1]);
            }
        }
        lemma_no_interrupt_inv(t, inputs.drop_first());
    }
}

/// Exactly one winner: in a search without streaming that no interrupt
/// stops, the search has stopped exactly when one key has been saved.
pub proof fn lemma_stopped_by_match_saves_one(n: nat, inputs: Seq<SystemInput>)
    requires
        no_interrupt(inputs),
    ensures
        !system_run(false, system_start(n), inputs).shared.running
            <==> system_run(false, system_start(n), inputs).persisted == 1,
{
    lemma_no_interrupt_inv(system_start(n), inputs);
}

/// A worker that claims its match while the search runs wins it: its key is
/// the one saved, and the search stops.
pub proof fn lemma_claim_while_running_saves(s: SystemModel, index: int, matched: bool)
    requires
        system_inv(false, s),
        s.shared.running,
        0 <= index < s.workers.len(),
        s.workers[index] == WorkerPhase::Claiming,
    ensures
        system_step(false, s, SystemInput::Worker { index, matched }).persisted == 1,
        !system_step(false, s, SystemInput::Worker { index, matched }).shared.running,
{
}

proof fn lemma_no_match_inv(streaming: bool, s: SystemModel, inputs: Seq<SystemInput>)
    requires
        s.reported == 0,
        s.persisted == 0,
        forall|i: int| 0 <= i < s.workers.len() ==> s.workers[i] != WorkerPhase::Claiming,
        never_matches(inputs),
    ensures
        system_run(streaming, s, inputs).reported == 0,
        system_run(streaming, s, inputs).persisted == 0,
        no_interrupt(inputs) ==> system_run(streaming, s, inputs).shared.running == s.shared.running,
    decreases inputs.len(),
{
    if inputs.len() > 0 {
        let t = system_step(streaming, s, inputs[0]);
        assert(!(inputs[0] matches SystemInput::Worker { matched: true, .. }));
        if let SystemInput::Worker { index, matched } = inputs[0] {
            if 0 <= index < s.workers.len() && s.workers[index] != WorkerPhase::Finished {
                assert forall|i: int| 0 <= i < t.workers.len() implies t.workers[i]
                    != WorkerPhase::Claiming by {
                    if i != index {
                        assert(t.workers[i] == s.workers[i]);
                    }
                }
            }
        }
        let rest = inputs.drop_first();
        assert(never_matches(rest)) by {
            assert forall|i: int| 0 <= i < rest.len() implies !(
            #[trigger] rest[i] matches SystemInput::Worker { matched: true, .. }) by {
                assert(rest[i] == inputs[i + 1]);
            }
        }
        if no_interrupt(inputs) {
            assert(!(inputs[0] is Interrupt));
            assert(no_interrupt(rest)) by {
                assert forall|i: int| 0 <= i < rest.len() implies !(#[trigger] rest[i] is Interrupt) by {
                    assert(rest[i] == inputs[i + 1]);
                }
            }
        }
        lemma_no_match_inv(streaming, t, rest);
    }
}

/// A search whose tests never match reports nothing and saves nothing, and
/// its workers never clear the running flag: only an interrupt stops it.
pub proof fn lemma_no_match_reports_nothing(streaming: bool, n: nat, inputs: Seq<SystemInput>)
    requires
        never_matches(inputs),
    ensures
        system_run(streaming, system_start(n), inputs).reported == 0,
        system_run(streaming, system_start(n), inputs).persisted == 0,
        no_interrupt(inputs) ==> system_run(streaming, system_start(n), inputs).shared.running,
{
    lemma_no_match_inv(streaming, system_start(n), inputs);
}

/// Whether `input` is a step of a worker that counts and tests a key.
pub open spec fn is_attempt(s: SystemModel, input: SystemInput) -> bool {
    match input {
        SystemInput::Worker { index, .. } => 0 <= index < s.workers.len() && s.workers[index]
            == WorkerPhase::Testing,
        SystemInput::Interrupt => false,
    }
}

/// The number of attempts the workers make during `inputs`, run from `s`.
pub open spec fn attempts_in(streaming: bool, s: SystemModel, inputs: Seq<SystemInput>) -> nat
    decreases inputs.len(),
{
    if inputs.len() == 0 {
        0
    } else {
        (if is_attempt(s, inputs[0]) { 1nat } else { 0nat }) + attempts_in(
            streaming,
            system_step(streaming, s, inputs[0]),
            inputs.drop_first(),
        )
    }
}

/// No lost updates in a whole search: however the workers interleave, the
/// counter grows by exactly the number of attempts they make.
pub proof fn lemma_counter_counts_every_attempt(streaming: bool, s: SystemModel, inputs: Seq<SystemInput>)
    ensures
        system_run(streaming, s, inputs).shared.total == s.shared.total + attempts_in(streaming, s, inputs),
    decreases inputs.len(),
{
    if inputs.len() > 0 {
        lemma_counter_counts_every_attempt(streaming, system_step(streaming, s, inputs[0]), inputs.drop_first());
    }
}

} // verus!
