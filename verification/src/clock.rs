//! Extrapolating presentation clock.
//!
//! A `Clock` remembers the presentation time of the frame most recently
//! handed to the output, together with the wall-clock instant (in
//! microseconds since session start) of that hand-off.  Any thread can
//! then read an extrapolated "current presentation time" without polling
//! the producer: the clock is only ever pushed to, never polled from the
//! decoder.

use vstd::prelude::*;

use crate::defines::TIME_BOUND_US;

verus! {

#[derive(Clone, Copy, Debug)]
pub struct Clock {
    /// Presentation time of the frame last handed to the output, in µs.
    pub pts: i64,
    /// Duration of that frame, in µs.
    pub duration: i64,
    /// Wall-clock time of the last `update`, in µs since session start.
    pub last_update: i64,
}

impl Clock {
    /// All fields inside the crate-wide time bound, so that
    /// `pts + (now - last_update)` never overflows.
    pub open spec fn wf(self) -> bool {
        &&& -TIME_BOUND_US <= self.pts <= TIME_BOUND_US
        &&& 0 <= self.duration <= TIME_BOUND_US
        &&& 0 <= self.last_update <= TIME_BOUND_US
    }

    /// The extrapolated presentation time at wall-clock instant `now`.
    pub open spec fn spec_current(self, now: int) -> int {
        self.pts + (now - self.last_update)
    }

    /// A fresh clock reads presentation time zero at instant `now`.
    pub fn new(now: i64) -> (c: Clock)
        requires
            0 <= now <= TIME_BOUND_US,
        ensures
            c.wf(),
            c.pts == 0,
            c.duration == 0,
            c.last_update == now,
            c.spec_current(now as int) == 0,
    {
        Clock { pts: 0, duration: 0, last_update: now }
    }

    /// Extrapolates the presentation time forward by the wall-clock time
    /// elapsed since the last authoritative update.
    pub fn current(&self, now: i64) -> (r: i64)
        requires
            self.wf(),
            self.last_update <= now <= TIME_BOUND_US,
        ensures
            r == self.spec_current(now as int),
    {
        self.pts + (now - self.last_update)
    }

    /// Records the hand-off of a frame `(pts, duration)` at wall-clock
    /// instant `now`.  Immediately after the call the clock reads exactly
    /// `pts`, whatever it extrapolated to before.
    pub fn update(&mut self, pts: i64, duration: i64, now: i64)
        requires
            -TIME_BOUND_US <= pts <= TIME_BOUND_US,
            0 <= duration <= TIME_BOUND_US,
            0 <= now <= TIME_BOUND_US,
        ensures
            final(self).wf(),
            final(self).pts == pts,
            final(self).duration == duration,
            final(self).last_update == now,
            final(self).spec_current(now as int) == pts,
    {
        self.pts = pts;
        self.duration = duration;
        self.last_update = now;
    }

    /// Duration of the frame last handed to the output.
    pub fn duration(&self) -> (r: i64)
        ensures
            r == self.duration,
    {
        self.duration
    }
}

/// Between two `update` calls the clock is monotonically non-decreasing:
/// pure wall-clock extrapolation can only move the reading forward.
pub proof fn lemma_current_monotonic(c: Clock, t1: int, t2: int)
    requires
        c.wf(),
        c.last_update <= t1 <= t2,
    ensures
        c.spec_current(t1) <= c.spec_current(t2),
{
}

} // verus!
