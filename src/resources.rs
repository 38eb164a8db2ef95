use vstd::prelude::*;
use crate::constants::{COUNTDOWN_START, COUNTDOWN_TICK, SERVE_DELAY};

verus! {

/// Goals credited to each side.
#[derive(Clone, Copy, Debug, PartialEq, Eq, Structural)]
pub struct Score {
    pub left: u32,
    pub right: u32,
}

/// One goal more, saturating at the largest count.
pub open spec fn bump(n: u32) -> u32 {
    if n < u32::MAX {
        (n + 1) as u32
    } else {
        n
    }
}

/// The one-shot serve delay: microseconds elapsed since it was armed,
/// never past `SERVE_DELAY`.
#[derive(Clone, Copy, Debug, PartialEq, Eq, Structural)]
pub struct PuckDelayTimer {
    pub elapsed: u64,
}

/// Whether play is paused.
#[derive(Clone, Copy, Debug, PartialEq, Eq, Structural)]
pub struct GamePaused(pub bool);

/// The coarse phase of the game.
#[derive(Clone, Copy, Debug, PartialEq, Eq, Structural)]
pub enum GameState {
    StartScreen,
    Countdown,
    Playing,
}

/// The countdown before play: microseconds into the current step, and the
/// number still to show.
#[derive(Clone, Copy, Debug, PartialEq, Eq, Structural)]
pub struct CountdownTimer {
    pub elapsed: u64,
    pub remaining: u32,
}

impl Score {
    pub fn new() -> (r: Score)
        ensures
            r.left == 0 && r.right == 0,
    {
        Score { left: 0, right: 0 }
    }
}

impl PuckDelayTimer {
    pub open spec fn wf(self) -> bool {
        self.elapsed <= SERVE_DELAY
    }

    /// The delay has run out.
    pub open spec fn finished(self) -> bool {
        self.elapsed >= SERVE_DELAY
    }

    /// The timer after `dt` more microseconds.
    pub open spec fn ticked(self, dt: int) -> PuckDelayTimer {
        if self.elapsed + dt >= SERVE_DELAY {
            PuckDelayTimer { elapsed: SERVE_DELAY }
        } else {
            PuckDelayTimer { elapsed: (self.elapsed + dt) as u64 }
        }
    }

    /// A freshly armed delay.
    pub fn armed() -> (r: PuckDelayTimer)
        ensures
            r.elapsed == 0,
            r.wf(),
            !r.finished(),
    {
        PuckDelayTimer { elapsed: 0 }
    }

    pub fn is_finished(&self) -> (r: bool)
        ensures
            r == self.finished(),
    {
        self.elapsed >= SERVE_DELAY
    }

    /// Advances the delay by `dt` microseconds; it stops once it has run out.
    pub fn tick(&mut self, dt: u32)
        requires
            old(self).wf(),
        ensures
            *final(self) == old(self).ticked(dt as int),
            final(self).wf(),
    {
        if dt as u64 >= SERVE_DELAY - self.elapsed {
            self.elapsed = SERVE_DELAY;
        } else {
            self.elapsed = self.elapsed + dt as u64;
        }
    }
}

impl CountdownTimer {
    pub open spec fn wf(self) -> bool {
        self.elapsed < COUNTDOWN_TICK && 1 <= self.remaining <= COUNTDOWN_START
    }

    /// The countdown after `dt` more microseconds: each time the step
    /// interval completes, the shown number drops by one and the interval
    /// starts over with what is left of `dt`.
    pub open spec fn ticked(self, dt: int) -> CountdownTimer {
        let e = self.elapsed + dt;
        if e >= COUNTDOWN_TICK {
            CountdownTimer {
                elapsed: (e % COUNTDOWN_TICK as int) as u64,
                remaining: (self.remaining - 1) as u32,
            }
        } else {
            CountdownTimer { elapsed: e as u64, remaining: self.remaining }
        }
    }

    /// Advances the countdown by `dt` microseconds.
    pub fn tick(&mut self, dt: u32)
        requires
            old(self).wf(),
        ensures
            *final(self) == old(self).ticked(dt as int),
            final(self).elapsed < COUNTDOWN_TICK,
            final(self).remaining == old(self).remaining || final(self).remaining
                == old(self).remaining - 1,
    {
        let e: u64 = self.elapsed + dt as u64;
        if e >= COUNTDOWN_TICK {
            self.elapsed = e % COUNTDOWN_TICK;
            self.remaining = self.remaining - 1;
        } else {
            self.elapsed = e;
        }
    }
}

} // verus!
