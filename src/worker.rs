//! The decisions of one search worker. The worker's outside work (reading
//! the running flag, generating and testing a key, reporting, claiming the
//! win, saving) is done by its caller; each outcome is handed back as an
//! event, and `Worker::step` says what to do next.
use vstd::prelude::*;

verus! {

/// Where a worker stands in its loop.
#[derive(Debug, Clone, Copy, PartialEq, Eq, Structural)]
pub enum WorkerPhase {
    /// About to read the running flag.
    AtLoopEntry,
    /// An attempt is being generated and tested.
    Testing,
    /// Trying to clear the running flag after a match.
    Claiming,
    /// The loop has ended.
    Finished,
}

/// The outcome of the work a worker was told to do.
#[derive(Debug, Clone, Copy, PartialEq, Eq, Structural)]
pub enum WorkerEvent {
    /// The running flag was read.
    FlagRead { running: bool },
    /// A fresh key pair was counted, generated and tested.
    Tested { matched: bool },
    /// A claim of the running flag returned `won`.
    ClaimResult { won: bool },
}

/// What a worker does next.
#[derive(Debug, Clone, Copy, PartialEq, Eq, Structural)]
pub enum WorkerAction {
    /// Count one attempt, generate a key pair and test it.
    Attempt,
    /// Read the running flag.
    CheckFlag,
    /// Report the match, then read the running flag.
    ReportAndContinue,
    /// Report the match, then try to clear the running flag.
    ReportAndClaim,
    /// Save the match to storage and stop.
    PersistAndStop,
    /// Stop.
    Stop,
}

/// The next phase and action of a worker in `phase` on `event`. An event
/// that does not belong to the phase ends the worker.
pub open spec fn worker_next(streaming: bool, phase: WorkerPhase, event: WorkerEvent) -> (
    WorkerPhase,
    WorkerAction,
) {
    match (phase, event) {
        (WorkerPhase::AtLoopEntry, WorkerEvent::FlagRead { running }) => if running {
            (WorkerPhase::Testing, WorkerAction::Attempt)
        } else {
            (WorkerPhase::Finished, WorkerAction::Stop)
        },
        (WorkerPhase::Testing, WorkerEvent::Tested { matched }) => if !matched {
            (WorkerPhase::AtLoopEntry, WorkerAction::CheckFlag)
        } else if streaming {
            (WorkerPhase::AtLoopEntry, WorkerAction::ReportAndContinue)
        } else {
            (WorkerPhase::Claiming, WorkerAction::ReportAndClaim)
        },
        (WorkerPhase::Claiming, WorkerEvent::ClaimResult { won }) => if won {
            (WorkerPhase::Finished, WorkerAction::PersistAndStop)
        } else {
            (WorkerPhase::Finished, WorkerAction::Stop)
        },
        _ => (WorkerPhase::Finished, WorkerAction::Stop),
    }
}

/// The decision state of one worker.
#[derive(Debug, Clone, Copy, PartialEq, Eq, Structural)]
pub struct Worker {
    pub phase: WorkerPhase,
    pub streaming: bool,
}

impl Worker {
    /// A worker at the entry of its loop; its first action is to read the
    /// running flag.
    pub fn new(streaming: bool) -> (w: Worker)
        ensures
            w.phase == WorkerPhase::AtLoopEntry,
            w.streaming == streaming,
    {
        Worker { phase: WorkerPhase::AtLoopEntry, streaming }
    }

    /// Takes the outcome of the last action and returns the next one.
    pub fn step(&mut self, event: WorkerEvent) -> (r: WorkerAction)
        ensures
            (final(self).phase, r) == worker_next(old(self).streaming, old(self).phase, event),
            final(self).streaming == old(self).streaming,
    {
        let (phase, action) = match (self.phase, event) {
            (WorkerPhase::AtLoopEntry, WorkerEvent::FlagRead { running }) => if running {
                (WorkerPhase::Testing, WorkerAction::Attempt)
            } else {
                (WorkerPhase::Finished, WorkerAction::Stop)
            },
            (WorkerPhase::Testing, WorkerEvent::Tested { matched }) => if !matched {
                (WorkerPhase::AtLoopEntry, WorkerAction::CheckFlag)
            } else if self.streaming {
                (WorkerPhase::AtLoopEntry, WorkerAction::ReportAndContinue)
            } else {
                (WorkerPhase::Claiming, WorkerAction::ReportAndClaim)
            },
            (WorkerPhase::Claiming, WorkerEvent::ClaimResult { won }) => if won {
                (WorkerPhase::Finished, WorkerAction::PersistAndStop)
            } else {
                (WorkerPhase::Finished, WorkerAction::Stop)
            },
            _ => (WorkerPhase::Finished, WorkerAction::Stop),
        };
        self.phase = phase;
        action
    }

    /// Whether the worker's loop has ended.
    pub fn is_finished(&self) -> (r: bool)
        ensures
            r == (self.phase == WorkerPhase::Finished),
    {
        self.phase == WorkerPhase::Finished
    }
}

/// The phase a worker reaches from `phase` on `events`.
pub open spec fn phase_after(streaming: bool, phase: WorkerPhase, events: Seq<WorkerEvent>) -> WorkerPhase
    decreases events.len(),
{
    if events.len() == 0 {
        phase
    } else {
        phase_after(streaming, worker_next(streaming, phase, events[0]).0, events.drop_first())
    }
}

/// The actions a worker returns from `phase` on `events`, in order.
pub open spec fn actions_of(streaming: bool, phase: WorkerPhase, events: Seq<WorkerEvent>) -> Seq<
    WorkerAction,
>
    decreases events.len(),
{
    if events.len() == 0 {
        Seq::empty()
    } else {
        let (next, action) = worker_next(streaming, phase, events[0]);
        seq![action] + actions_of(streaming, next, events.drop_first())
    }
}

/// The number of claims among `events` that were won.
pub open spec fn count_won_claims(events: Seq<WorkerEvent>) -> nat
    decreases events.len(),
{
    if events.len() == 0 {
        0
    } else {
        (if events[0] == (WorkerEvent::ClaimResult { won: true }) { 1nat } else { 0nat })
            + count_won_claims(events.drop_first())
    }
}

/// The number of saves among `actions`.
pub open spec fn count_persists(actions: Seq<WorkerAction>) -> nat
    decreases actions.len(),
{
    if actions.len() == 0 {
        0
    } else {
        (if actions[0] is PersistAndStop { 1nat } else { 0nat }) + count_persists(actions.drop_first())
    }
}

proof fn lemma_streaming_never_claims(phase: WorkerPhase, events: Seq<WorkerEvent>)
    requires
        phase != WorkerPhase::Claiming,
    ensures
        count_persists(actions_of(true, phase, events)) == 0,
    decreases events.len(),
{
    if events.len() > 0 {
        let (next, action) = worker_next(true, phase, events[0]);
        let rest = actions_of(true, next, events.drop_first());
        lemma_streaming_never_claims(next, events.drop_first());
        assert((seq![action] + rest).drop_first() =~= rest);
    }
}

/// A streaming worker never saves a key, whatever it finds: from the entry
/// of its loop, no sequence of events leads it to save.
pub proof fn lemma_streaming_never_persists(events: Seq<WorkerEvent>)
    ensures
        count_persists(actions_of(true, WorkerPhase::AtLoopEntry, events)) == 0,
{
    lemma_streaming_never_claims(WorkerPhase::AtLoopEntry, events);
}

/// A worker saves only on a won claim, and only once: the saves among its
/// actions are no more than its won claims, and no more than one.
pub proof fn lemma_persist_only_on_win(streaming: bool, phase: WorkerPhase, events: Seq<WorkerEvent>)
    ensures
        count_persists(actions_of(streaming, phase, events)) <= count_won_claims(events),
        count_persists(actions_of(streaming, phase, events)) <= 1,
        phase == WorkerPhase::Finished ==> count_persists(actions_of(streaming, phase, events)) == 0,
    decreases events.len(),
{
    if events.len() > 0 {
        let (next, action) = worker_next(streaming, phase, events[0]);
        let rest = actions_of(streaming, next, events.drop_first());
        lemma_persist_only_on_win(streaming, next, events.drop_first());
        assert((seq![action] + rest).drop_first() =~= rest);
        assert((seq![action] + rest)[0] == action);
    }
}

} // verus!
