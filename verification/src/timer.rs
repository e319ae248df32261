//! A repeating countdown timer driven by elapsed-time ticks.
//!
//! The timer accumulates elapsed milliseconds and reports a firing whenever
//! the accumulator reaches the target; on firing the accumulator wraps
//! modulo the target, so an elapsed value spanning several periods still
//! produces a single at-least-once notification for that call.

use vstd::arithmetic::div_mod::lemma_small_mod;
use vstd::prelude::*;

use crate::config::{MAX_TIMER_TARGET_MS, MIN_TIMER_TARGET_MS};

verus! {

/// Largest elapsed value one `Timer::tick` call accepts, in milliseconds.
pub const MAX_TIMER_TICK_MS: u64 = 1_000_000_000_000;

/// Whether a timer with accumulator `acc` and target `target` fires when fed
/// `dt` more milliseconds.
pub open spec fn fires(acc: int, dt: int, target: int) -> bool {
    acc + dt >= target
}

/// The accumulator after feeding `dt`: the total wraps modulo the target.
pub open spec fn acc_after(acc: int, dt: int, target: int) -> int {
    (acc + dt) % target
}

/// A target clamped into the accepted range.
pub open spec fn clamped_target(t: int) -> int {
    if t < MIN_TIMER_TARGET_MS as int {
        MIN_TIMER_TARGET_MS as int
    } else if t > MAX_TIMER_TARGET_MS as int {
        MAX_TIMER_TARGET_MS as int
    } else {
        t
    }
}

/// A repeating countdown: fires each time the accumulated elapsed time
/// reaches the target, then keeps the remainder.
#[derive(Clone, Copy, Debug, PartialEq, Eq, Structural)]
pub struct Timer {
    /// Milliseconds accumulated since the last firing.
    pub elapsed_ms: u64,
    /// Duration of one period, in milliseconds.
    pub target_ms: u64,
}

impl Timer {
    /// The timer's target is positive and bounded, and its accumulator never
    /// exceeds the largest target.
    pub open spec fn wf(self) -> bool {
        &&& MIN_TIMER_TARGET_MS <= self.target_ms <= MAX_TIMER_TARGET_MS
        &&& self.elapsed_ms <= MAX_TIMER_TARGET_MS
    }

    /// A fresh timer with the given target (clamped into the accepted range)
    /// and an empty accumulator.
    pub fn new(target_ms: u64) -> (r: Timer)
        ensures
            r.wf(),
            r.elapsed_ms == 0,
            r.target_ms == clamped_target(target_ms as int),
    {
        let t: u64 = if target_ms < MIN_TIMER_TARGET_MS {
            MIN_TIMER_TARGET_MS
        } else if target_ms > MAX_TIMER_TARGET_MS {
            MAX_TIMER_TARGET_MS
        } else {
            target_ms
        };
        Timer { elapsed_ms: 0, target_ms: t }
    }

    /// Advances the accumulator by `dt_ms` and reports whether the timer
    /// fired during this call; on firing the accumulator keeps the remainder
    /// of the total modulo the target.
    pub fn tick(&mut self, dt_ms: u64) -> (fired: bool)
        requires
            old(self).wf(),
            dt_ms <= MAX_TIMER_TICK_MS,
        ensures
            final(self).wf(),
            final(self).target_ms == old(self).target_ms,
            fired == fires(
                old(self).elapsed_ms as int,
                dt_ms as int,
                old(self).target_ms as int,
            ),
            final(self).elapsed_ms as int == acc_after(
                old(self).elapsed_ms as int,
                dt_ms as int,
                old(self).target_ms as int,
            ),
    {
        let total: u64 = self.elapsed_ms + dt_ms;
        if total >= self.target_ms {
            self.elapsed_ms = total % self.target_ms;
            true
        } else {
            proof {
                lemma_small_mod(total as nat, self.target_ms as nat);
            }
            self.elapsed_ms = total;
            false
        }
    }

    /// Changes the target for subsequent periods, clamped into the accepted
    /// range; the accumulator is kept.
    pub fn set_duration(&mut self, target_ms: u64)
        requires
            old(self).wf(),
        ensures
            final(self).wf(),
            final(self).elapsed_ms == old(self).elapsed_ms,
            final(self).target_ms == clamped_target(target_ms as int),
    {
        self.target_ms = if target_ms < MIN_TIMER_TARGET_MS {
            MIN_TIMER_TARGET_MS
        } else if target_ms > MAX_TIMER_TARGET_MS {
            MAX_TIMER_TARGET_MS
        } else {
            target_ms
        };
    }
}

/// Sum of a sequence of elapsed values.
pub open spec fn sum_of(dts: Seq<int>) -> int
    decreases dts.len(),
{
    if dts.len() == 0 {
        0
    } else {
        sum_of(dts.drop_last()) + dts.last()
    }
}

/// Accumulator of a fresh timer with target `target` after feeding it the
/// elapsed values of `dts` in order.
pub open spec fn acc_after_calls(target: int, dts: Seq<int>) -> int
    decreases dts.len(),
{
    if dts.len() == 0 {
        0
    } else {
        acc_after(acc_after_calls(target, dts.drop_last()), dts.last(), target)
    }
}

/// How many of the calls in `dts`, fed in order to a fresh timer with target
/// `target`, reported a firing.
pub open spec fn fire_count(target: int, dts: Seq<int>) -> int
    decreases dts.len(),
{
    if dts.len() == 0 {
        0
    } else {
        fire_count(target, dts.drop_last()) + if fires(
            acc_after_calls(target, dts.drop_last()),
            dts.last(),
            target,
        ) {
            1int
        } else {
            0int
        }
    }
}

/// Law: while the running total of elapsed values stays at or below the
/// target, a fresh timer's accumulator equals that total and it has fired
/// exactly when the total reached the target — so across many small calls
/// the single firing happens at the crossing call, and never before.
pub proof fn lemma_timer_run_below_target(target: int, dts: Seq<int>)
    requires
        1 <= target,
        forall|i: int| 0 <= i < dts.len() ==> dts[i] >= 0,
        sum_of(dts) <= target,
    ensures
        acc_after_calls(target, dts) == if sum_of(dts) < target {
            sum_of(dts)
        } else {
            0int
        },
        fire_count(target, dts) == if sum_of(dts) >= target {
            1int
        } else {
            0int
        },
    decreases dts.len(),
{
    if dts.len() > 0 {
        let prefix = dts.drop_last();
        let last = dts.last();
        assert(last >= 0);
        assert(forall|i: int| 0 <= i < prefix.len() ==> prefix[i] == dts[i]);
        lemma_timer_run_below_target(target, prefix);
        if sum_of(prefix) < target {
            if sum_of(dts) >= target {
                assert(sum_of(dts) == target);
                assert(acc_after(sum_of(prefix), last, target) == target % target);
                assert(target % target == 0) by {
                    assert(target == target * 1 + 0) by (nonlinear_arith);
                }
            } else {
                lemma_small_mod(sum_of(dts) as nat, target as nat);
            }
        } else {
            assert(sum_of(prefix) == target);
            assert(last == sum_of(dts) - sum_of(prefix));
            assert(last == 0);
            lemma_small_mod(0nat, target as nat);
        }
    }
}

/// Law: a fresh repeating timer with positive target `target`, fed
/// non-negative elapsed values summing to exactly `target` — whether in a
/// single call or spread over many — fires exactly once, at the call on
/// which the running total crosses the target.
pub proof fn lemma_timer_fires_once(target: int, dts: Seq<int>)
    requires
        1 <= target,
        forall|i: int| 0 <= i < dts.len() ==> dts[i] >= 0,
        sum_of(dts) == target,
    ensures
        fire_count(target, dts) == 1,
        acc_after_calls(target, dts) == 0,
{
    lemma_timer_run_below_target(target, dts);
}

} // verus!
