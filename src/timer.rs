//! A one-shot countdown timer over whole microseconds.

use vstd::prelude::*;

verus! {

/// A one-shot timer: `elapsed` counts up towards `target` and stops there.
#[derive(Clone, Copy, Debug, PartialEq, Eq)]
pub struct Timer {
    pub elapsed: u64,
    pub target: u64,
}

impl Timer {
    /// Elapsed time never runs past the target.
    pub open spec fn wf(self) -> bool {
        self.elapsed <= self.target
    }

    /// The timer has reached its target.
    pub open spec fn is_finished(self) -> bool {
        self.elapsed >= self.target
    }

    /// The timer after `delta` more microseconds, saturating at the target.
    pub open spec fn advanced(self, delta: u64) -> Timer {
        Timer {
            elapsed: if self.elapsed + delta >= self.target {
                self.target
            } else {
                (self.elapsed + delta) as u64
            },
            target: self.target,
        }
    }

    /// A fresh timer with nothing elapsed and the given target.
    pub fn new(target: u64) -> (r: Timer)
        ensures
            r.wf(),
            r.elapsed == 0,
            r.target == target,
    {
        Timer { elapsed: 0, target }
    }

    /// Advances the timer by `delta`, stopping at the target.
    pub fn tick(&mut self, delta: u64)
        requires
            old(self).wf(),
        ensures
            final(self).wf(),
            *final(self) == old(self).advanced(delta),
    {
        if delta >= self.target - self.elapsed {
            self.elapsed = self.target;
        } else {
            self.elapsed = self.elapsed + delta;
        }
    }

    /// Whether the elapsed time has reached the target.
    pub fn finished(&self) -> (r: bool)
        ensures
            r == self.is_finished(),
    {
        self.elapsed >= self.target
    }

    /// The time elapsed so far.
    pub fn elapsed(&self) -> (r: u64)
        ensures
            r == self.elapsed,
    {
        self.elapsed
    }

    /// The duration the timer counts towards.
    pub fn target(&self) -> (r: u64)
        ensures
            r == self.target,
    {
        self.target
    }

    /// Starts over: nothing elapsed, and a new target.
    pub fn reset(&mut self, new_target: u64)
        ensures
            final(self).wf(),
            final(self).elapsed == 0,
            final(self).target == new_target,
    {
        self.elapsed = 0;
        self.target = new_target;
    }
}

} // verus!
