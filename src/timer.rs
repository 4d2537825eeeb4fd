use vstd::prelude::*;
use crate::stage::{GameState, duration_secs, stage_duration_secs};

verus! {

/// A stage's countdown: a fixed total and the time elapsed while the puzzle was in progress.
#[derive(Clone, Copy, Debug, PartialEq, Eq, Structural)]
pub struct TimerResource {
    pub total_ms: u64,
    pub elapsed_ms: u64,
}

/// Whole seconds and tenths, as the countdown is shown.
#[derive(Clone, Copy, Debug, PartialEq, Eq, Structural)]
pub struct Readout {
    pub seconds: u64,
    pub tenths: u64,
}

/// The countdown after a frame of `dt_ms`: time passes only while `running`, and never past the total.
pub open spec fn ticked(t: TimerResource, running: bool, dt_ms: u64) -> TimerResource {
    if !running {
        t
    } else if t.elapsed_ms + dt_ms < t.total_ms {
        TimerResource { elapsed_ms: (t.elapsed_ms + dt_ms) as u64, ..t }
    } else {
        TimerResource { elapsed_ms: t.total_ms, ..t }
    }
}

impl TimerResource {
    /// No more time has elapsed than the total.
    pub open spec fn wf(&self) -> bool {
        self.elapsed_ms <= self.total_ms
    }

    /// The time left.
    pub open spec fn remaining(&self) -> int {
        self.total_ms - self.elapsed_ms
    }

    /// The countdown of a stage, not yet started.
    pub fn for_stage(s: GameState) -> (t: Self)
        ensures
            t.wf(),
            t.total_ms == duration_secs(s) * 1000,
            t.elapsed_ms == 0,
    {
        TimerResource { total_ms: stage_duration_secs(s) * 1000, elapsed_ms: 0 }
    }

    /// A countdown of `total_ms` that has not started.
    pub fn new(total_ms: u64) -> (t: Self)
        ensures
            t.wf(),
            t.total_ms == total_ms,
            t.elapsed_ms == 0,
    {
        TimerResource { total_ms, elapsed_ms: 0 }
    }

    /// Adds `dt_ms` to the elapsed time if `running`, never past the total.
    pub fn tick(&mut self, running: bool, dt_ms: u64)
        requires
            old(self).wf(),
        ensures
            final(self).wf(),
            *final(self) == ticked(*old(self), running, dt_ms),
    {
        if running {
            if dt_ms < self.total_ms - self.elapsed_ms {
                self.elapsed_ms = self.elapsed_ms + dt_ms;
            } else {
                self.elapsed_ms = self.total_ms;
            }
        }
    }

    /// The time left, in milliseconds.
    pub fn remaining_ms(&self) -> (r: u64)
        requires
            self.wf(),
        ensures
            r == self.remaining(),
    {
        self.total_ms - self.elapsed_ms
    }

    /// Tells whether no time is left.
    pub fn expired(&self) -> (r: bool)
        requires
            self.wf(),
        ensures
            r == (self.remaining() == 0),
    {
        self.elapsed_ms == self.total_ms
    }

    /// The width of the countdown bar, in thousandths of its full width: the share of
    /// the total that is left, rounded down (zero for a countdown of no length).
    pub fn bar_permille(&self) -> (r: u64)
        requires
            self.wf(),
        ensures
            self.total_ms == 0 ==> r == 0,
            self.total_ms > 0 ==> r == self.remaining() * 1000 / (self.total_ms as int),
            r <= 1000,
    {
        if self.total_ms == 0 {
            0
        } else {
            let left: u128 = (self.total_ms - self.elapsed_ms) as u128;
            let total: u128 = self.total_ms as u128;
            assert((left * 1000) as int / (total as int) <= 1000) by (nonlinear_arith)
                requires left <= total, total > 0;
            (left * 1000 / total) as u64
        }
    }

    /// The time left as whole seconds and tenths of a second, rounded down.
    pub fn readout(&self) -> (r: Readout)
        requires
            self.wf(),
        ensures
            r.seconds == self.remaining() / 1000,
            r.tenths == self.remaining() % 1000 / 100,
    {
        let left: u64 = self.total_ms - self.elapsed_ms;
        Readout { seconds: left / 1000, tenths: left % 1000 / 100 }
    }
}

} // verus!
