//! Countdown timers measured in whole simulation ticks.

use vstd::prelude::*;

verus! {

/// A one-shot countdown. `tick` brings `remaining` toward zero one tick at a
/// time; `fired` records whether the most recent `tick` was the one that
/// reached zero, so that edge-triggered reactions run exactly once.
#[derive(Clone, Copy, Debug, PartialEq, Eq, Structural)]
pub struct TickTimer {
    pub remaining: u64,
    pub total: u64,
    pub fired: bool,
}

/// Longest countdown the simulation ever starts; keeps per-mille
/// arithmetic on tick counts far from overflow.
pub const TIMER_TICKS_LIMIT: u64 = 1_000_000_000;

impl TickTimer {
    /// The countdown never holds more ticks than it was created with, and
    /// tick counts stay small enough for per-mille arithmetic.
    pub open spec fn wf(self) -> bool {
        self.remaining <= self.total <= TIMER_TICKS_LIMIT
    }

    /// A countdown of `ticks` ticks, not yet started.
    pub fn from_ticks(ticks: u64) -> (r: TickTimer)
        requires
            ticks <= TIMER_TICKS_LIMIT,
        ensures
            r.remaining == ticks,
            r.total == ticks,
            !r.fired,
            r.wf(),
    {
        TickTimer { remaining: ticks, total: ticks, fired: false }
    }

    /// An elapsed countdown, the state a fresh actor starts in.
    pub fn expired() -> (r: TickTimer)
        ensures
            r.remaining == 0,
            r.total == 0,
            !r.fired,
            r.wf(),
    {
        TickTimer { remaining: 0, total: 0, fired: false }
    }

    /// The state one `tick` call leaves behind.
    pub open spec fn ticked_spec(self) -> TickTimer {
        TickTimer {
            remaining: if self.remaining > 0 {
                (self.remaining - 1) as u64
            } else {
                0
            },
            total: self.total,
            fired: self.remaining == 1,
        }
    }

    /// Advance the countdown by one tick.
    pub fn tick(&mut self)
        ensures
            *final(self) == old(self).ticked_spec(),
            old(self).wf() ==> final(self).wf(),
    {
        if self.remaining > 0 {
            self.remaining = self.remaining - 1;
            self.fired = self.remaining == 0;
        } else {
            self.fired = false;
        }
    }

    /// The countdown has reached zero.
    pub fn finished(&self) -> (r: bool)
        ensures
            r <==> self.remaining == 0,
    {
        self.remaining == 0
    }

    /// The most recent `tick` was the one that reached zero.
    pub fn just_finished(&self) -> (r: bool)
        ensures
            r == self.fired,
    {
        self.fired
    }

    /// Fraction of the countdown still to run, in per mille of the total.
    /// A zero-length countdown has nothing left.
    pub open spec fn percent_left_spec(self) -> int {
        if self.total == 0 {
            0
        } else {
            self.remaining * 1000 / (self.total as int)
        }
    }

    /// Fraction of the countdown still to run, in per mille of the total.
    pub fn percent_left_milli(&self) -> (r: u64)
        requires
            self.wf(),
        ensures
            r == self.percent_left_spec(),
            r <= 1000,
    {
        if self.total == 0 {
            0
        } else {
            proof {
                vstd::arithmetic::mul::lemma_mul_inequality(
                    self.remaining as int,
                    self.total as int,
                    1000,
                );
                vstd::arithmetic::div_mod::lemma_div_is_ordered(
                    self.remaining as int * 1000,
                    self.total as int * 1000,
                    self.total as int,
                );
                vstd::arithmetic::div_mod::lemma_div_multiples_vanish(
                    1000,
                    self.total as int,
                );
                assert(self.total as int * 1000 == 1000 * self.total as int);
            }
            self.remaining * 1000 / self.total
        }
    }
}

} // verus!
