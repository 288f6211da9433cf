use vstd::prelude::*;

verus! {

/// Milliseconds between two spawn attempts.
pub const SPAWN_PERIOD_MS: u32 = 3000;

/// Milliseconds between two descents at the normal rate.
pub const NORMAL_FALL_MS: u32 = 1000;

/// Milliseconds between two descents while soft drop is held.
pub const FAST_FALL_MS: u32 = 500;

/// A repeating timer: it accumulates elapsed time and fires each time the
/// accumulated time reaches its period, keeping what is left over.
#[derive(Clone, Copy, PartialEq, Eq, Structural, Debug)]
pub struct Timer {
    pub period_ms: u32,
    pub elapsed_ms: u32,
}

impl Timer {
    pub open spec fn wf(&self) -> bool {
        0 < self.period_ms && self.elapsed_ms < self.period_ms
    }

    /// Whether advancing by `delta_ms` makes the timer fire.
    pub open spec fn fires(&self, delta_ms: int) -> bool {
        self.elapsed_ms + delta_ms >= self.period_ms
    }

    /// The timer after advancing by `delta_ms`.
    pub open spec fn spec_ticked(&self, delta_ms: int) -> Timer {
        Timer { elapsed_ms: ((self.elapsed_ms + delta_ms) % (self.period_ms as int)) as u32, ..*self }
    }

    /// The timer with no time accumulated.
    pub open spec fn spec_reset(&self) -> Timer {
        Timer { elapsed_ms: 0, ..*self }
    }

    /// A timer of period `period_ms` with no time accumulated.
    pub fn new(period_ms: u32) -> (r: Timer)
        requires
            period_ms > 0,
        ensures
            r == (Timer { period_ms, elapsed_ms: 0 }),
            r.wf(),
    {
        Timer { period_ms, elapsed_ms: 0 }
    }

    /// Advances the timer by `delta_ms`; returns whether it fired.
    pub fn tick(&mut self, delta_ms: u32) -> (fired: bool)
        requires
            old(self).wf(),
        ensures
            fired == old(self).fires(delta_ms as int),
            *final(self) == old(self).spec_ticked(delta_ms as int),
            final(self).wf(),
    {
        let total: u64 = self.elapsed_ms as u64 + delta_ms as u64;
        let fired = total >= self.period_ms as u64;
        let rest = total % (self.period_ms as u64);
        assert(rest < self.period_ms) by {
            vstd::arithmetic::div_mod::lemma_mod_bound(total as int, self.period_ms as int);
        }
        self.elapsed_ms = rest as u32;
        fired
    }

    /// Drops the accumulated time.
    pub fn reset(&mut self)
        requires
            old(self).wf(),
        ensures
            *final(self) == old(self).spec_reset(),
            final(self).wf(),
    {
        self.elapsed_ms = 0;
    }
}

/// The gravity clock: one timer for the normal rate of descent and one for
/// the faster rate used while soft drop is held.
#[derive(Clone, Copy, PartialEq, Eq, Structural, Debug)]
pub struct FallingTimer {
    pub normal_timer: Timer,
    pub fast_timer: Timer,
}

impl FallingTimer {
    pub open spec fn wf(&self) -> bool {
        self.normal_timer.wf() && self.fast_timer.wf()
    }

    /// Whether advancing by `delta_ms` makes the timer in use fire.
    pub open spec fn fires(&self, delta_ms: int, soft_drop: bool) -> bool {
        if soft_drop {
            self.fast_timer.fires(delta_ms)
        } else {
            self.normal_timer.fires(delta_ms)
        }
    }

    /// The clock after the timer in use advanced by `delta_ms`.
    pub open spec fn spec_ticked(&self, delta_ms: int, soft_drop: bool) -> FallingTimer {
        if soft_drop {
            FallingTimer { fast_timer: self.fast_timer.spec_ticked(delta_ms), ..*self }
        } else {
            FallingTimer { normal_timer: self.normal_timer.spec_ticked(delta_ms), ..*self }
        }
    }

    /// The clock with both timers reset.
    pub open spec fn spec_reset(&self) -> FallingTimer {
        FallingTimer {
            normal_timer: self.normal_timer.spec_reset(),
            fast_timer: self.fast_timer.spec_reset(),
        }
    }

    /// Both timers at their default periods, with no time accumulated.
    pub open spec fn spec_new() -> FallingTimer {
        FallingTimer {
            normal_timer: Timer { period_ms: NORMAL_FALL_MS, elapsed_ms: 0 },
            fast_timer: Timer { period_ms: FAST_FALL_MS, elapsed_ms: 0 },
        }
    }

    /// Both timers at their default periods, with no time accumulated.
    pub fn new() -> (r: FallingTimer)
        ensures
            r == FallingTimer::spec_new(),
            r.wf(),
    {
        FallingTimer { normal_timer: Timer::new(NORMAL_FALL_MS), fast_timer: Timer::new(FAST_FALL_MS) }
    }

    /// Advances the fast timer if `soft_drop` holds, else the normal one, by
    /// `delta_ms`; returns whether it fired.
    pub fn tick(&mut self, delta_ms: u32, soft_drop: bool) -> (fired: bool)
        requires
            old(self).wf(),
        ensures
            fired == old(self).fires(delta_ms as int, soft_drop),
            *final(self) == old(self).spec_ticked(delta_ms as int, soft_drop),
            final(self).wf(),
    {
        if soft_drop {
            self.fast_timer.tick(delta_ms)
        } else {
            self.normal_timer.tick(delta_ms)
        }
    }

    /// Resets both timers.
    pub fn reset(&mut self)
        requires
            old(self).wf(),
        ensures
            *final(self) == old(self).spec_reset(),
            final(self).wf(),
    {
        self.normal_timer.reset();
        self.fast_timer.reset();
    }
}

} // verus!
