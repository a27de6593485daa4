use vstd::prelude::*;
use crate::config::{MAX_FRAME_MILLIS, MAX_INTERVAL_MILLIS};

verus! {

/// A repeating timer: it accumulates elapsed milliseconds and fires
/// once each time the accumulated time reaches the configured
/// interval, then starts accumulating again from zero.
#[derive(Clone, Copy, Debug, PartialEq, Eq, Structural)]
pub struct Timer {
    pub interval_ms: u64,
    pub elapsed_ms: u64,
}

impl Timer {
    /// A timer is between firings: a positive, bounded interval, with
    /// strictly less than one interval accumulated.
    pub open spec fn wf(self) -> bool {
        &&& 0 < self.interval_ms <= MAX_INTERVAL_MILLIS
        &&& self.elapsed_ms < self.interval_ms
    }

    /// Whether advancing by `dt` makes the timer fire.
    pub open spec fn fires(self, dt: int) -> bool {
        self.elapsed_ms + dt >= self.interval_ms
    }

    /// The time the timer will have accumulated after advancing by
    /// `dt`; on a firing tick, the whole span since the last firing.
    pub open spec fn accumulated(self, dt: int) -> int {
        self.elapsed_ms + dt
    }

    /// The timer after advancing by `dt`: reset to zero on a firing
    /// tick, otherwise still accumulating.
    pub open spec fn after_tick(self, dt: int) -> Timer {
        if self.fires(dt) {
            Timer { interval_ms: self.interval_ms, elapsed_ms: 0 }
        } else {
            Timer { interval_ms: self.interval_ms, elapsed_ms: (self.elapsed_ms + dt) as u64 }
        }
    }

    /// A fresh timer with nothing accumulated.
    pub fn new(interval_ms: u64) -> (t: Timer)
        requires
            0 < interval_ms <= MAX_INTERVAL_MILLIS,
        ensures
            t.wf(),
            t.interval_ms == interval_ms,
            t.elapsed_ms == 0,
    {
        Timer { interval_ms, elapsed_ms: 0 }
    }

    /// Advance the timer by `dt` milliseconds. On the tick that crosses
    /// the interval it fires exactly once, handing back the time
    /// accumulated since the last firing, and resets.
    pub fn tick(&mut self, dt: u64) -> (fired: Option<u64>)
        requires
            old(self).wf(),
            dt <= MAX_FRAME_MILLIS,
        ensures
            final(self).wf(),
            *final(self) == old(self).after_tick(dt as int),
            old(self).fires(dt as int) ==> fired == Some(old(self).accumulated(dt as int) as u64),
            !old(self).fires(dt as int) ==> fired is None,
    {
        let acc = self.elapsed_ms + dt;
        if acc >= self.interval_ms {
            self.elapsed_ms = 0;
            Some(acc)
        } else {
            self.elapsed_ms = acc;
            None
        }
    }
}

} // verus!
