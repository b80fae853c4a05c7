//! A repeating countdown timer driven by integer frame deltas.
//!
//! Time is measured in milliseconds.  The timer accumulates the elapsed
//! time of each frame; whenever the accumulated time crosses the fixed
//! period the timer fires and immediately begins counting down the next
//! interval, keeping any surplus (no drift beyond the caller's own
//! delta accumulation).

use vstd::arithmetic::div_mod::lemma_basic_div;
use vstd::arithmetic::div_mod::lemma_div_by_self;
use vstd::arithmetic::div_mod::lemma_mod_self_0;
use vstd::arithmetic::div_mod::lemma_small_mod;
use vstd::prelude::*;

verus! {

/// Largest period and largest single frame delta the timer accepts, in
/// milliseconds; their sum still fits in `u64`.
pub const MAX_PERIOD_MILLIS: u64 = 0x8000_0000_0000_0000;

/// A repeating countdown timer.
///
/// `elapsed` is the time counted towards the current interval and is
/// always smaller than `period`; `fired` is how many intervals elapsed
/// during the most recent tick.
#[derive(Clone, Copy, Debug, PartialEq, Eq, Structural)]
pub struct Timer {
    pub period: u64,
    pub elapsed: u64,
    pub fired: u64,
}

impl Timer {
    /// The timer's period is positive and bounded, and the time counted
    /// towards the current interval is still short of it.
    pub open spec fn wf(self) -> bool {
        &&& 0 < self.period <= MAX_PERIOD_MILLIS
        &&& self.elapsed < self.period
    }

    /// The timer as it stands after one tick of `delta` milliseconds:
    /// the accumulated time is reduced modulo the period, and `fired`
    /// counts the intervals that elapsed during this tick.
    pub open spec fn ticked(pre: Timer, delta: u64) -> Timer {
        Timer {
            period: pre.period,
            elapsed: ((pre.elapsed + delta) % (pre.period as int)) as u64,
            fired: ((pre.elapsed + delta) / (pre.period as int)) as u64,
        }
    }

    /// A fresh repeating timer with the given period in milliseconds.
    pub fn from_millis(period: u64) -> (t: Timer)
        requires
            0 < period <= MAX_PERIOD_MILLIS,
        ensures
            t == (Timer { period, elapsed: 0, fired: 0 }),
            t.wf(),
    {
        Timer { period, elapsed: 0, fired: 0 }
    }

    /// Advances the timer by `delta` milliseconds of frame time.
    pub fn tick(&mut self, delta: u64)
        requires
            old(self).wf(),
            delta <= MAX_PERIOD_MILLIS,
        ensures
            *final(self) == Timer::ticked(*old(self), delta),
            final(self).wf(),
    {
        let total: u64 = self.elapsed + delta;
        self.fired = total / self.period;
        self.elapsed = total % self.period;
    }

    /// Whether the current interval elapsed during the most recent
    /// tick.
    pub fn just_finished(&self) -> (b: bool)
        ensures
            b == (self.fired > 0),
    {
        self.fired > 0
    }
}

/// Total frame time of a sequence of per-frame deltas, in milliseconds.
pub open spec fn sum_of_deltas(deltas: Seq<u64>) -> int
    decreases deltas.len(),
{
    if deltas.len() == 0 {
        0
    } else {
        deltas[0] + sum_of_deltas(deltas.drop_first())
    }
}

/// Number of frames in which the timer fires when it is advanced by the
/// given per-frame deltas in order.
pub open spec fn fire_frames(t: Timer, deltas: Seq<u64>) -> int
    decreases deltas.len(),
{
    if deltas.len() == 0 {
        0
    } else {
        let t2 = Timer::ticked(t, deltas[0]);
        (if t2.fired > 0 {
            1int
        } else {
            0int
        }) + fire_frames(t2, deltas.drop_first())
    }
}

/// A timer advanced by deltas that sum to zero never fires.
proof fn lemma_zero_sum_never_fires(t: Timer, deltas: Seq<u64>)
    requires
        t.wf(),
        sum_of_deltas(deltas) == 0,
    ensures
        fire_frames(t, deltas) == 0,
    decreases deltas.len(),
{
    if deltas.len() > 0 {
        assert(sum_of_deltas(deltas.drop_first()) >= 0) by {
            lemma_sum_of_deltas_nonneg(deltas.drop_first());
        }
        let t2 = Timer::ticked(t, deltas[0]);
        lemma_basic_div(t.elapsed as int, t.period as int);
        lemma_small_mod(t.elapsed as nat, t.period as nat);
        assert(t2.fired == 0);
        assert(t2.wf());
        lemma_zero_sum_never_fires(t2, deltas.drop_first());
    }
}

/// The total of a sequence of deltas is never negative.
proof fn lemma_sum_of_deltas_nonneg(deltas: Seq<u64>)
    ensures
        sum_of_deltas(deltas) >= 0,
    decreases deltas.len(),
{
    if deltas.len() > 0 {
        lemma_sum_of_deltas_nonneg(deltas.drop_first());
    }
}

/// Law: a timer that is advanced by exactly the time left in its
/// current interval — in one or more increments — fires in exactly one
/// of those frames.  In particular, a fresh timer advanced by deltas
/// summing to its period fires exactly once.
pub proof fn lemma_exact_period_fires_once(t: Timer, deltas: Seq<u64>)
    requires
        t.wf(),
        forall|i: int| 0 <= i < deltas.len() ==> #[trigger] deltas[i] <= MAX_PERIOD_MILLIS,
        t.elapsed + sum_of_deltas(deltas) == t.period,
    ensures
        fire_frames(t, deltas) == 1,
    decreases deltas.len(),
{
    if deltas.len() == 0 {
        assert(t.elapsed == t.period);
        assert(false);
    } else {
        let d0 = deltas[0];
        let rest = deltas.drop_first();
        lemma_sum_of_deltas_nonneg(rest);
        let t2 = Timer::ticked(t, d0);
        if t.elapsed + d0 < t.period {
            lemma_basic_div(t.elapsed + d0, t.period as int);
            lemma_small_mod((t.elapsed + d0) as nat, t.period as nat);
            assert(t2.fired == 0);
            assert(t2.elapsed == t.elapsed + d0);
            assert(forall|i: int|
                0 <= i < rest.len() ==> #[trigger] rest[i] <= MAX_PERIOD_MILLIS) by {
                assert(forall|i: int| 0 <= i < rest.len() ==> rest[i] == deltas[i + 1]);
            }
            lemma_exact_period_fires_once(t2, rest);
        } else {
            assert(t.elapsed + d0 == t.period);
            lemma_div_by_self(t.period as int);
            lemma_mod_self_0(t.period as int);
            assert(t2.fired == 1);
            assert(t2.elapsed == 0);
            assert(sum_of_deltas(rest) == 0);
            lemma_zero_sum_never_fires(t2, rest);
        }
    }
}

} // verus!
