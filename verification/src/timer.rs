//! A countdown timer driven from outside: each tick hands it the elapsed
//! milliseconds, the remaining time falls saturating to zero, and the tick
//! that reaches zero is flagged once as `just_finished`. Once finished, a
//! timer stays finished until it is reset to its full duration.

use vstd::prelude::*;

verus! {

/// A countdown over whole milliseconds.
#[derive(Clone, Copy, PartialEq, Eq, Structural)]
pub struct Timer {
    pub duration_ms: u64,
    pub remaining_ms: u64,
    pub finished: bool,
    pub just_finished: bool,
}

impl Timer {
    /// A timer is well formed when its remaining time never exceeds its
    /// duration and the finished flag means exactly "no time remains".
    pub open spec fn wf(self) -> bool {
        &&& self.remaining_ms <= self.duration_ms
        &&& (self.finished ==> self.remaining_ms == 0)
        &&& (self.just_finished ==> self.finished)
    }

    /// The state a fresh timer of the given duration starts in.
    pub open spec fn new_spec(duration_ms: u64) -> Timer {
        Timer { duration_ms, remaining_ms: duration_ms, finished: false, just_finished: false }
    }

    pub fn new(duration_ms: u64) -> (t: Timer)
        ensures
            t == Timer::new_spec(duration_ms),
            duration_ms > 0 ==> t.wf(),
    {
        Timer { duration_ms, remaining_ms: duration_ms, finished: false, just_finished: false }
    }

    /// What one tick of `delta_ms` milliseconds does: nothing once finished,
    /// otherwise the remaining time falls saturating to zero, and reaching
    /// zero raises both flags.
    pub open spec fn tick_spec(self, delta_ms: u64) -> Timer {
        if self.finished {
            Timer { just_finished: false, ..self }
        } else {
            let rem = if delta_ms >= self.remaining_ms { 0u64 } else {
                (self.remaining_ms - delta_ms) as u64
            };
            Timer {
                remaining_ms: rem,
                finished: rem == 0,
                just_finished: rem == 0,
                ..self
            }
        }
    }

    /// Advance the countdown by `delta_ms` milliseconds.
    pub fn tick(&mut self, delta_ms: u64)
        ensures
            *final(self) == old(self).tick_spec(delta_ms),
            old(self).wf() ==> final(self).wf(),
    {
        self.just_finished = false;
        if self.finished {
            return;
        }
        self.remaining_ms = if delta_ms >= self.remaining_ms {
            0
        } else {
            self.remaining_ms - delta_ms
        };
        if self.remaining_ms == 0 {
            self.just_finished = true;
            self.finished = true;
        }
    }

    /// The state after winding the timer back to its full duration.
    pub open spec fn reset_spec(self) -> Timer {
        if self.duration_ms == 0 && self.remaining_ms != 0 {
            Timer { remaining_ms: 0, finished: true, just_finished: true, ..self }
        } else {
            Timer {
                remaining_ms: self.duration_ms,
                finished: false,
                just_finished: false,
                ..self
            }
        }
    }

    /// Wind the timer back to its full duration; a zero-length timer that
    /// still had time left counts as having just run out instead.
    pub fn reset(&mut self)
        ensures
            *final(self) == old(self).reset_spec(),
    {
        if self.duration_ms == 0 && self.remaining_ms != 0 {
            self.just_finished = true;
            self.finished = true;
            self.remaining_ms = 0;
        } else {
            self.just_finished = false;
            self.finished = false;
            self.remaining_ms = self.duration_ms;
        }
    }

    /// Whether the countdown has reached zero.
    pub fn is_finished(&self) -> (r: bool)
        ensures
            r == self.finished,
    {
        self.finished
    }

    /// Whether the countdown reached zero on the latest tick.
    pub fn has_just_finished(&self) -> (r: bool)
        ensures
            r == self.just_finished,
    {
        self.just_finished
    }
}

} // verus!
