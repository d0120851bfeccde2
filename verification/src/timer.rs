//! A repeating timer: it accumulates elapsed time every frame, fires when
//! the accumulated time reaches its interval, and then starts over from
//! zero.

use vstd::prelude::*;
use crate::limits::DT_MAX;
use crate::limits::INTERVAL_MAX;

verus! {

#[derive(Clone, Copy, PartialEq, Eq, Structural, Debug)]
pub struct RepeatTimer {
    /// Time between firings, in thousandths of a second.
    pub interval: i64,
    /// Time accumulated since the last firing, in thousandths of a second.
    pub elapsed: i64,
}

/// Whether a tick of `dt` makes the timer fire.
pub open spec fn timer_fires(t: RepeatTimer, dt: int) -> bool {
    t.elapsed + dt >= t.interval
}

impl RepeatTimer {
    pub open spec fn wf(self) -> bool {
        &&& 0 < self.interval <= INTERVAL_MAX
        &&& 0 <= self.elapsed < self.interval
    }

    /// A fresh timer that first fires once `interval` has accumulated.
    pub fn new(interval: i64) -> (t: RepeatTimer)
        requires
            0 < interval <= INTERVAL_MAX,
        ensures
            t.interval == interval,
            t.elapsed == 0,
            t.wf(),
    {
        RepeatTimer { interval, elapsed: 0 }
    }

    /// Accumulate `dt`; report whether the interval elapsed, and start
    /// over from zero if it did.
    pub fn tick(&mut self, dt: i64) -> (fired: bool)
        requires
            old(self).wf(),
            0 <= dt <= DT_MAX,
        ensures
            fired == timer_fires(*old(self), dt as int),
            final(self).interval == old(self).interval,
            final(self).elapsed == if fired {
                0int
            } else {
                old(self).elapsed + dt
            },
            final(self).wf(),
    {
        self.elapsed = self.elapsed + dt;
        if self.elapsed >= self.interval {
            self.elapsed = 0;
            true
        } else {
            false
        }
    }
}

} // verus!
