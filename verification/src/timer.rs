//! Countdown timers over integer microseconds.

use vstd::prelude::*;

verus! {

/// What a timer does once its duration has elapsed.
#[derive(Debug, Copy, Clone, PartialEq, Eq, Hash, Structural)]
pub enum TimerMode {
    /// The timer stops at its duration and stays finished until it is reset.
    Once,
    /// The timer wraps around and keeps running.
    Repeating,
}

/// A timer that is advanced by explicit ticks. All times are microseconds.
#[derive(Debug, Copy, Clone, PartialEq, Eq, Hash, Structural)]
pub struct Timer {
    pub duration: u64,
    pub elapsed: u64,
    pub mode: TimerMode,
    pub finished: bool,
    pub just_finished: bool,
}

impl Timer {
    /// A fresh timer: nothing elapsed, not finished.
    pub open spec fn spec_new(duration: u64, mode: TimerMode) -> Timer {
        Timer { duration, elapsed: 0, mode, finished: false, just_finished: false }
    }

    /// The timer after `delta` microseconds have passed.
    ///
    /// A finished one-shot timer no longer moves. Otherwise the elapsed time
    /// grows by `delta`; on reaching the duration a one-shot timer stops
    /// there, and a repeating timer keeps the remainder. A repeating timer is
    /// finished only during the tick in which it wrapped around.
    pub open spec fn spec_tick(self, delta: u64) -> Timer {
        let total = self.elapsed + delta;
        if self.mode == TimerMode::Once && self.finished {
            Timer { just_finished: false, ..self }
        } else if total < self.duration {
            Timer { elapsed: total as u64, finished: false, just_finished: false, ..self }
        } else if self.mode == TimerMode::Once {
            Timer { elapsed: self.duration, finished: true, just_finished: true, ..self }
        } else if self.duration == 0 {
            Timer { elapsed: 0, finished: true, just_finished: true, ..self }
        } else {
            Timer {
                elapsed: (total % self.duration as int) as u64,
                finished: true,
                just_finished: true,
                ..self
            }
        }
    }

    /// The timer wound back to the start, with the same duration and mode.
    pub open spec fn spec_reset(self) -> Timer {
        Timer { elapsed: 0, finished: false, just_finished: false, ..self }
    }

    /// The elapsed share of the duration in thousandths, at most 1000; a
    /// timer of zero duration counts as complete.
    pub open spec fn spec_fraction(self) -> int {
        if self.duration == 0 || self.elapsed >= self.duration {
            1000
        } else {
            (self.elapsed * 1000) / (self.duration as int)
        }
    }

    /// The time that is left until the duration is reached.
    pub open spec fn spec_remaining(self) -> int {
        if self.elapsed >= self.duration {
            0
        } else {
            self.duration - self.elapsed
        }
    }

    pub fn new(duration: u64, mode: TimerMode) -> (t: Timer)
        ensures
            t == Timer::spec_new(duration, mode),
    {
        Timer { duration, elapsed: 0, mode, finished: false, just_finished: false }
    }

    /// Advances the timer by `delta` microseconds.
    pub fn tick(&mut self, delta: u64)
        ensures
            *final(self) == old(self).spec_tick(delta),
    {
        let total: u128 = self.elapsed as u128 + delta as u128;
        if self.mode == TimerMode::Once && self.finished {
            self.just_finished = false;
        } else if total < self.duration as u128 {
            self.elapsed = total as u64;
            self.finished = false;
            self.just_finished = false;
        } else if self.mode == TimerMode::Once {
            self.elapsed = self.duration;
            self.finished = true;
            self.just_finished = true;
        } else if self.duration == 0 {
            self.elapsed = 0;
            self.finished = true;
            self.just_finished = true;
        } else {
            self.elapsed = (total % (self.duration as u128)) as u64;
            self.finished = true;
            self.just_finished = true;
        }
    }

    pub fn is_finished(&self) -> (b: bool)
        ensures
            b == self.finished,
    {
        self.finished
    }

    /// Whether the timer reached its duration during the latest tick.
    pub fn just_finished(&self) -> (b: bool)
        ensures
            b == self.just_finished,
    {
        self.just_finished
    }

    pub fn elapsed(&self) -> (e: u64)
        ensures
            e == self.elapsed,
    {
        self.elapsed
    }

    pub fn duration(&self) -> (d: u64)
        ensures
            d == self.duration,
    {
        self.duration
    }

    pub fn set_duration(&mut self, duration: u64)
        ensures
            *final(self) == (Timer { duration, ..*old(self) }),
    {
        self.duration = duration;
    }

    pub fn set_elapsed(&mut self, elapsed: u64)
        ensures
            *final(self) == (Timer { elapsed, ..*old(self) }),
    {
        self.elapsed = elapsed;
    }

    pub fn reset(&mut self)
        ensures
            *final(self) == old(self).spec_reset(),
    {
        self.elapsed = 0;
        self.finished = false;
        self.just_finished = false;
    }

    pub fn fraction(&self) -> (f: u32)
        ensures
            f == self.spec_fraction(),
            f <= 1000,
    {
        if self.duration == 0 || self.elapsed >= self.duration {
            1000
        } else {
            let e: u128 = self.elapsed as u128;
            let d: u128 = self.duration as u128;
            let q: u128 = e * 1000 / d;
            assert(q <= 1000) by (nonlinear_arith)
                requires
                    q == (e * 1000) / (d as int),
                    0 <= e < d,
            ;
            q as u32
        }
    }

    pub fn remaining(&self) -> (r: u64)
        ensures
            r == self.spec_remaining(),
    {
        if self.elapsed >= self.duration {
            0
        } else {
            self.duration - self.elapsed
        }
    }
}

} // verus!
