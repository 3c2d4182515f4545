//! The state that the coordinator and all workers of a search share: the
//! count of generation attempts and the running flag. Both are single
//! atomics, never locked.
//!
//! Other threads change these values at any moment, so no contract can say
//! what a load returns. What holds of every interleaving is stated on
//! `SharedModel`: each atomic operation is indivisible, so any concurrent run
//! is some sequence of these operations.
use vstd::prelude::*;
use std::sync::atomic::{AtomicBool, AtomicU64, Ordering};

verus! {

/// The counter of attempts and the running flag of one search.
pub struct SharedState {
    total_generated: AtomicU64,
    running: AtomicBool,
}

impl SharedState {
    /// A fresh state: no attempt counted, running.
    pub fn new() -> SharedState {
        SharedState { total_generated: AtomicU64::new(0), running: AtomicBool::new(true) }
    }

    /// Counts one generation attempt.
    pub fn record_attempt(&self) {
        self.total_generated.fetch_add(1, Ordering::SeqCst);
    }

    /// The number of attempts counted so far.
    pub fn total_generated(&self) -> u64 {
        self.total_generated.load(Ordering::SeqCst)
    }

    /// Whether the search is still running.
    pub fn is_running(&self) -> bool {
        self.running.load(Ordering::SeqCst)
    }

    /// Clears the running flag if it is set. Returns whether this call was
    /// the one that cleared it: of all claims, at most one returns `true`.
    pub fn try_claim(&self) -> bool {
        match self.running.compare_exchange(true, false, Ordering::SeqCst, Ordering::SeqCst) {
            Ok(_) => true,
            Err(_) => false,
        }
    }

    /// Clears the running flag, as an interrupt does. Touches nothing else.
    pub fn stop(&self) {
        self.running.store(false, Ordering::SeqCst);
    }
}

/// The values of a `SharedState` at one moment.
pub struct SharedModel {
    pub total: nat,
    pub running: bool,
}

/// One atomic operation on the shared state.
pub enum SharedOp {
    /// `record_attempt`.
    Increment,
    /// `try_claim`.
    Claim,
    /// `stop`.
    Interrupt,
    /// `total_generated` or `is_running`.
    Read,
}

/// The state of a fresh search.
pub open spec fn initial_model() -> SharedModel {
    SharedModel { total: 0, running: true }
}

/// The state after `op`.
pub open spec fn apply_op(m: SharedModel, op: SharedOp) -> SharedModel {
    match op {
        SharedOp::Increment => SharedModel { total: m.total + 1, running: m.running },
        SharedOp::Claim => SharedModel { total: m.total, running: false },
        SharedOp::Interrupt => SharedModel { total: m.total, running: false },
        SharedOp::Read => m,
    }
}

/// Whether `op` is a claim that returns `true` in state `m`.
pub open spec fn op_wins(m: SharedModel, op: SharedOp) -> bool {
    op is Claim && m.running
}

/// The state after the operations `ops`, in order.
pub open spec fn run_ops(m: SharedModel, ops: Seq<SharedOp>) -> SharedModel
    decreases ops.len(),
{
    if ops.len() == 0 {
        m
    } else {
        run_ops(apply_op(m, ops[0]), ops.drop_first())
    }
}

/// The number of increments among `ops`.
pub open spec fn count_increments(ops: Seq<SharedOp>) -> nat
    decreases ops.len(),
{
    if ops.len() == 0 {
        0
    } else {
        (if ops[0] is Increment { 1nat } else { 0nat }) + count_increments(ops.drop_first())
    }
}

/// The number of claims among `ops`, run from `m`, that return `true`.
pub open spec fn count_wins(m: SharedModel, ops: Seq<SharedOp>) -> nat
    decreases ops.len(),
{
    if ops.len() == 0 {
        0
    } else {
        (if op_wins(m, ops[0]) { 1nat } else { 0nat }) + count_wins(apply_op(m, ops[0]), ops.drop_first())
    }
}

/// The number of operations among `ops`, run from `m`, that turn the running
/// flag from set to clear.
pub open spec fn count_flag_clears(m: SharedModel, ops: Seq<SharedOp>) -> nat
    decreases ops.len(),
{
    if ops.len() == 0 {
        0
    } else {
        let next = apply_op(m, ops[0]);
        (if m.running && !next.running { 1nat } else { 0nat }) + count_flag_clears(next, ops.drop_first())
    }
}

/// Whether `ops` holds a claim or an interrupt.
pub open spec fn has_clear(ops: Seq<SharedOp>) -> bool {
    exists|i: int| 0 <= i < ops.len() && (ops[i] is Claim || ops[i] is Interrupt)
}

/// No lost updates: after any sequence of operations the counter has grown
/// by exactly the number of attempts recorded.
pub proof fn lemma_counter_counts_attempts(m: SharedModel, ops: Seq<SharedOp>)
    ensures
        run_ops(m, ops).total == m.total + count_increments(ops),
    decreases ops.len(),
{
    if ops.len() > 0 {
        lemma_counter_counts_attempts(apply_op(m, ops[0]), ops.drop_first());
    }
}

/// The counter never decreases: running more operations never makes it
/// smaller.
pub proof fn lemma_counter_monotone(m: SharedModel, ops: Seq<SharedOp>, more: Seq<SharedOp>)
    ensures
        run_ops(m, ops).total <= run_ops(m, ops + more).total,
    decreases ops.len(),
{
    if ops.len() == 0 {
        assert(ops + more =~= more);
        lemma_counter_counts_attempts(m, more);
    } else {
        assert((ops + more).drop_first() =~= ops.drop_first() + more);
        lemma_counter_monotone(apply_op(m, ops[0]), ops.drop_first(), more);
    }
}

/// Once clear, the running flag stays clear.
pub proof fn lemma_cleared_stays_clear(m: SharedModel, ops: Seq<SharedOp>)
    requires
        !m.running,
    ensures
        !run_ops(m, ops).running,
        count_wins(m, ops) == 0,
        count_flag_clears(m, ops) == 0,
    decreases ops.len(),
{
    if ops.len() > 0 {
        lemma_cleared_stays_clear(apply_op(m, ops[0]), ops.drop_first());
    }
}

/// One winner at most: from a running state, at most one claim returns
/// `true` and the flag is cleared at most once, and exactly once when any
/// claim or interrupt happens. Every winning claim is such a clear.
pub proof fn lemma_single_winner(m: SharedModel, ops: Seq<SharedOp>)
    requires
        m.running,
    ensures
        count_wins(m, ops) <= count_flag_clears(m, ops),
        count_flag_clears(m, ops) <= 1,
        count_flag_clears(m, ops) == 1 <==> has_clear(ops),
        run_ops(m, ops).running <==> !has_clear(ops),
    decreases ops.len(),
{
    if ops.len() > 0 {
        let next = apply_op(m, ops[0]);
        let rest = ops.drop_first();
        if next.running {
            lemma_single_winner(next, rest);
            assert(has_clear(ops) <==> has_clear(rest)) by {
                if has_clear(ops) {
                    let i = choose|i: int| 0 <= i < ops.len() && (ops[i] is Claim || ops[i] is Interrupt);
                    assert(i > 0);
                    assert(rest[i - 1] == ops[i]);
                }
                if has_clear(rest) {
                    let i = choose|i: int| 0 <= i < rest.len() && (rest[i] is Claim || rest[i] is Interrupt);
                    assert(ops[i + 1] == rest[i]);
                }
            }
        } else {
            lemma_cleared_stays_clear(next, rest);
            assert(ops[0] is Claim || ops[0] is Interrupt);
        }
    }
}

} // verus!
