//! Fixed-timestep pacing: an accumulator of elapsed wall-clock time that the
//! frame loop drains in uniform ticks, so that simulation stays deterministic
//! under a variable frame rate.

use vstd::arithmetic::div_mod::lemma_div_by_self;
use vstd::arithmetic::div_mod::lemma_div_is_ordered;
use vstd::arithmetic::div_mod::lemma_multiply_divide_lt;
use vstd::prelude::*;

verus! {

/// Length of one simulation tick at the configured rate of 60 ticks per
/// second, in nanoseconds.
pub const TICK_60HZ_NS: u64 = 16_666_666;

/// The result of adding elapsed time to an accumulator, saturating at the
/// numeric limit (unreachable in practice, but stated so the operation is
/// total).
pub open spec fn sat_add_ns(a: u64, b: u64) -> int {
    if a + b <= u64::MAX {
        a + b
    } else {
        u64::MAX as int
    }
}

/// The accumulator that decides how many fixed simulation ticks fit into
/// the wall-clock time elapsed so far.
pub struct Ticker {
    pub tick_ns: u64,
    pub residual_ns: u64,
}

impl Ticker {
    /// A usable ticker has a positive tick length.
    pub open spec fn wf(self) -> bool {
        1 <= self.tick_ns
    }

    /// A fresh accumulator for ticks of `tick_ns` nanoseconds.
    pub fn new(tick_ns: u64) -> (r: Ticker)
        requires
            1 <= tick_ns,
        ensures
            r.wf(),
            r.tick_ns == tick_ns,
            r.residual_ns == 0,
    {
        Ticker { tick_ns, residual_ns: 0 }
    }

    /// Folds elapsed wall-clock time into the accumulator.
    pub fn advance(&mut self, elapsed_ns: u64)
        requires
            old(self).wf(),
        ensures
            final(self).wf(),
            final(self).tick_ns == old(self).tick_ns,
            final(self).residual_ns == sat_add_ns(old(self).residual_ns, elapsed_ns),
    {
        if self.residual_ns <= u64::MAX - elapsed_ns {
            self.residual_ns = self.residual_ns + elapsed_ns;
        } else {
            self.residual_ns = u64::MAX;
        }
    }

    /// One pacing decision, asked once per prospective tick: if at least one
    /// full tick of time has accumulated, consume it and answer yes.
    pub fn check_update_time(&mut self) -> (r: bool)
        requires
            old(self).wf(),
        ensures
            final(self).wf(),
            final(self).tick_ns == old(self).tick_ns,
            r == (old(self).residual_ns >= old(self).tick_ns),
            r ==> final(self).residual_ns == old(self).residual_ns - old(self).tick_ns,
            !r ==> final(self).residual_ns == old(self).residual_ns,
    {
        if self.residual_ns >= self.tick_ns {
            self.residual_ns = self.residual_ns - self.tick_ns;
            true
        } else {
            false
        }
    }
}

/// Frame pacing law: at 60 Hz, starting from a drained accumulator (the
/// state every frame leaves behind), a wall-clock gap of 33 ms yields one or
/// two simulation ticks — never zero, so a draw is always preceded by at
/// least one tick for such a frame.
pub proof fn lemma_frame_pacing(residual_ns: u64)
    requires
        residual_ns < TICK_60HZ_NS,
    ensures
        1 <= (residual_ns + 33_000_000) / (TICK_60HZ_NS as int) <= 2,
{
    let x = residual_ns + 33_000_000;
    let t = TICK_60HZ_NS as int;
    lemma_div_by_self(t);
    lemma_div_is_ordered(t, x, t);
    lemma_multiply_divide_lt(x, t, 3);
}

} // verus!
