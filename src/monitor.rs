//! The coordinator of a search: its lifecycle and its periodic progress
//! tick. The coordinator's outside work (spawning and joining workers,
//! sleeping, reading the shared state, printing) is done by its caller.
use vstd::prelude::*;
use crate::rate::{blend, exp_moving_average, lemma_average_between, MAX_SAMPLE, RATE_UNIT, WEIGHT_SCALE};

verus! {

/// The lifecycle of one search.
#[derive(Debug, Clone, Copy, PartialEq, Eq, Structural)]
pub enum Phase {
    Idle,
    Running,
    ShuttingDown,
    Joined,
    Terminated,
}

/// What one tick reports.
#[derive(Debug, Clone, Copy, PartialEq, Eq, Structural)]
pub struct Progress {
    /// Attempts counted so far.
    pub processed: u64,
    /// Smoothed attempts per tick, in `RATE_UNIT`s.
    pub avg_rate: u128,
}

/// The coordinator's state.
#[derive(Debug, Clone, Copy, PartialEq, Eq, Structural)]
pub struct Monitor {
    pub phase: Phase,
    /// The counter read at the previous tick.
    pub old_counter: u64,
    /// The smoothed number of attempts per tick, in `RATE_UNIT`s.
    pub avg_rate: u128,
}

/// The rate shown at a tick: the raw count on a tick with no earlier sample,
/// else the smoothed rate so far.
pub open spec fn shown_rate(m: Monitor, current: u64) -> u128 {
    if m.old_counter == 0 {
        (current * RATE_UNIT) as u128
    } else {
        m.avg_rate
    }
}

/// The state after a tick that read `current` and `running` with smoothing
/// weight `weight`.
pub open spec fn after_tick(m: Monitor, current: u64, weight: u64, running: bool) -> Monitor {
    Monitor {
        phase: if running { Phase::Running } else { Phase::ShuttingDown },
        old_counter: current,
        avg_rate: blend((current - m.old_counter) * RATE_UNIT, shown_rate(m, current) as int, weight as int)
            as u128,
    }
}

impl Monitor {
    /// A coordinator before the search starts.
    pub fn new() -> (m: Monitor)
        ensures
            m == (Monitor { phase: Phase::Idle, old_counter: 0, avg_rate: 0 }),
    {
        Monitor { phase: Phase::Idle, old_counter: 0, avg_rate: 0 }
    }

    /// The pattern is compiled, the shared state made and the workers
    /// spawned: the search runs.
    pub fn start(&mut self)
        requires
            old(self).phase == Phase::Idle,
        ensures
            *final(self) == (Monitor { phase: Phase::Running, ..*old(self) }),
    {
        self.phase = Phase::Running;
    }

    /// One progress tick: `current` is the counter just read, `weight` the
    /// smoothing weight for the time since the previous tick, `running` the
    /// flag just read. Returns what to show; a cleared flag starts the
    /// shutdown.
    pub fn tick(&mut self, current: u64, weight: u64, running: bool) -> (r: Progress)
        requires
            old(self).phase == Phase::Running,
            old(self).avg_rate <= MAX_SAMPLE,
            old(self).old_counter <= current,
            weight <= WEIGHT_SCALE,
        ensures
            r == (Progress { processed: current, avg_rate: shown_rate(*old(self), current) }),
            *final(self) == after_tick(*old(self), current, weight, running),
            final(self).avg_rate <= MAX_SAMPLE,
    {
        let shown = if self.old_counter == 0 {
            current as u128 * RATE_UNIT
        } else {
            self.avg_rate
        };
        let delta = (current - self.old_counter) as u128 * RATE_UNIT;
        let avg = exp_moving_average(delta, shown, weight);
        proof {
            lemma_average_between(delta as nat, shown as nat, weight);
        }
        self.phase = if running {
            Phase::Running
        } else {
            Phase::ShuttingDown
        };
        self.old_counter = current;
        self.avg_rate = avg;
        Progress { processed: current, avg_rate: shown }
    }

    /// Every worker has returned.
    pub fn joined(&mut self)
        requires
            old(self).phase == Phase::ShuttingDown,
        ensures
            *final(self) == (Monitor { phase: Phase::Joined, ..*old(self) }),
    {
        self.phase = Phase::Joined;
    }

    /// Completion is reported; the search is over.
    pub fn terminate(&mut self)
        requires
            old(self).phase == Phase::Joined,
        ensures
            *final(self) == (Monitor { phase: Phase::Terminated, ..*old(self) }),
    {
        self.phase = Phase::Terminated;
    }

    /// Whether the monitor loop goes on.
    pub fn is_running(&self) -> (r: bool)
        ensures
            r == (self.phase == Phase::Running),
    {
        self.phase == Phase::Running
    }
}

} // verus!
