//! Fixed-step physics: gravity integration with velocity clamping, and the
//! boundary-aware Euler position update.

use vstd::arithmetic::div_mod::lemma_div_is_ordered;
use vstd::arithmetic::mul::lemma_mul_inequality;
use vstd::prelude::*;

use crate::config::{Config, CONFIG_LIMIT, COORD_LIMIT, MAX_TICK_MS};

verus! {

/// `v` clamped into `[lo, hi]`.
pub open spec fn clamped(v: int, lo: int, hi: int) -> int {
    if v < lo {
        lo
    } else if v > hi {
        hi
    } else {
        v
    }
}

/// Velocity after one gravity step: the fall speed grows by `g * dt`, then
/// the result is clamped into `[lo, hi]`.
pub open spec fn gravity_velocity(v: int, g: int, dt_ms: int, lo: int, hi: int) -> int {
    clamped(v - g * dt_ms / 1000, lo, hi)
}

/// Signed displacement covered at velocity `v` over `dt_ms`, truncated
/// toward zero as the executable integer division is.
pub open spec fn displacement(v: int, dt_ms: int) -> int {
    if v >= 0 {
        v * dt_ms / 1000
    } else {
        -((-v) * dt_ms / 1000)
    }
}

/// Position after one tick: the update is skipped when the flyer is at or
/// beyond the top boundary and still moving up, or at or beyond the bottom
/// boundary and still moving down; otherwise Euler integration applies.
pub open spec fn position_after(y: int, v: int, dt_ms: int, top: int) -> int {
    if (v >= 0 && y >= top) || (v <= 0 && y <= -top) {
        y
    } else {
        y + displacement(v, dt_ms)
    }
}

/// A product of non-negative factors is bounded by the product of their
/// bounds.
pub proof fn lemma_product_in_range(a: int, b: int, amax: int, bmax: int)
    requires
        0 <= a <= amax,
        0 <= b <= bmax,
    ensures
        0 <= a * b <= amax * bmax,
{
    assert(0 <= a * b <= amax * bmax) by (nonlinear_arith)
        requires
            0 <= a <= amax,
            0 <= b <= bmax,
    ;
}

/// A non-negative product over `[0, vmax] x [0, dt_max]`, divided by 1000,
/// is bounded by `vmax * dt_max / 1000`.
proof fn lemma_scaled_product_bound(v: int, dt: int, vmax: int, dt_max: int)
    requires
        0 <= v <= vmax,
        0 <= dt <= dt_max,
    ensures
        0 <= v * dt / 1000 <= vmax * dt_max / 1000,
{
    lemma_mul_inequality(v, vmax, dt);
    lemma_mul_inequality(dt, dt_max, vmax);
    assert(vmax * dt == dt * vmax) by (nonlinear_arith);
    assert(dt_max * vmax == vmax * dt_max) by (nonlinear_arith);
    lemma_div_is_ordered(v * dt, vmax * dt_max, 1000);
    assert(v * dt >= 0) by (nonlinear_arith)
        requires
            v >= 0,
            dt >= 0,
    ;
    lemma_div_is_ordered(0, v * dt, 1000);
}

/// The displacement of one tick never exceeds one tick's maximal travel in
/// either direction.
pub proof fn lemma_displacement_bound(v: int, dt_ms: int, vmax: int)
    requires
        0 <= vmax,
        -vmax <= v <= vmax,
        0 <= dt_ms <= MAX_TICK_MS as int,
    ensures
        -(vmax * (MAX_TICK_MS as int) / 1000) <= displacement(v, dt_ms)
            <= vmax * (MAX_TICK_MS as int) / 1000,
{
    if v >= 0 {
        lemma_scaled_product_bound(v, dt_ms, vmax, MAX_TICK_MS as int);
    } else {
        lemma_scaled_product_bound(-v, dt_ms, vmax, MAX_TICK_MS as int);
    }
}

/// One position update keeps the flyer within the field boundaries extended
/// by one tick's maximal travel.
pub proof fn lemma_position_step_contained(y: int, v: int, dt_ms: int, top: int, vmax: int)
    requires
        0 <= top,
        0 <= vmax,
        -vmax <= v <= vmax,
        0 <= dt_ms <= MAX_TICK_MS as int,
        -top - vmax * (MAX_TICK_MS as int) / 1000 <= y <= top + vmax * (MAX_TICK_MS as int)
            / 1000,
    ensures
        -top - vmax * (MAX_TICK_MS as int) / 1000 <= position_after(y, v, dt_ms, top) <= top
            + vmax * (MAX_TICK_MS as int) / 1000,
{
    lemma_displacement_bound(v, dt_ms, vmax);
}

/// One motion step of the flyer, as the boundary-containment law sees it: a
/// clamped velocity and the tick's elapsed time.
#[derive(Clone, Copy, Debug, PartialEq, Eq, Structural)]
pub struct MotionStep {
    /// Velocity during the step, milliunits per second.
    pub v: i64,
    /// Elapsed time of the step, milliseconds.
    pub dt_ms: u64,
}

/// The flyer's vertical position after applying the motion steps in order.
pub open spec fn position_after_steps(y0: int, steps: Seq<MotionStep>, top: int) -> int
    decreases steps.len(),
{
    if steps.len() == 0 {
        y0
    } else {
        position_after(
            position_after_steps(y0, steps.drop_last(), top),
            steps.last().v as int,
            steps.last().dt_ms as int,
            top,
        )
    }
}

/// Law: starting inside the field, the flyer's vertical position never
/// exceeds the field's vertical bounds (adjusted for the flyer's half
/// height) by more than one tick's maximal travel, over any sequence of
/// ticks whose velocities respect the clamp.
pub proof fn lemma_boundary_containment(y0: int, steps: Seq<MotionStep>, top: int, vmax: int)
    requires
        0 <= top,
        0 <= vmax,
        -top <= y0 <= top,
        forall|i: int|
            0 <= i < steps.len() ==> -vmax <= (#[trigger] steps[i]).v <= vmax
                && steps[i].dt_ms <= MAX_TICK_MS,
    ensures
        -top - vmax * (MAX_TICK_MS as int) / 1000 <= position_after_steps(y0, steps, top) <= top
            + vmax * (MAX_TICK_MS as int) / 1000,
    decreases steps.len(),
{
    lemma_div_is_ordered(0, vmax * (MAX_TICK_MS as int), 1000);
    assert(vmax * (MAX_TICK_MS as int) >= 0) by (nonlinear_arith)
        requires
            vmax >= 0,
    ;
    if steps.len() > 0 {
        let prefix = steps.drop_last();
        assert(forall|i: int| 0 <= i < prefix.len() ==> prefix[i] == steps[i]);
        lemma_boundary_containment(y0, prefix, top, vmax);
        lemma_position_step_contained(
            position_after_steps(y0, prefix, top),
            steps.last().v as int,
            steps.last().dt_ms as int,
            top,
            vmax,
        );
    }
}

/// One velocity event of the flyer: either a flap, which resets the
/// velocity to the configured flap velocity, or a gravity step over some
/// elapsed time.
#[derive(Clone, Copy, Debug, PartialEq, Eq, Structural)]
pub enum VelocityEvent {
    /// A flap: the velocity is reset to the configured flap velocity.
    Flap,
    /// A gravity step over the given elapsed time, ending in the clamp.
    Gravity {
        /// Elapsed time of the step, milliseconds.
        dt_ms: u64,
    },
}

/// The flyer's velocity after applying the events in order.
pub open spec fn velocity_after_events(v0: int, events: Seq<VelocityEvent>, cfg: Config) -> int
    decreases events.len(),
{
    if events.len() == 0 {
        v0
    } else {
        let v = velocity_after_events(v0, events.drop_last(), cfg);
        match events.last() {
            VelocityEvent::Flap => cfg.flap_velocity as int,
            VelocityEvent::Gravity { dt_ms } => gravity_velocity(
                v,
                cfg.gravity as int,
                dt_ms as int,
                cfg.min_velocity as int,
                cfg.max_velocity as int,
            ),
        }
    }
}

/// Law: under a well-formed configuration, any sequence of flap and gravity
/// applications leaves the flyer's velocity within the configured clamp.
pub proof fn lemma_velocity_always_clamped(v0: int, events: Seq<VelocityEvent>, cfg: Config)
    requires
        cfg.wf(),
        cfg.min_velocity <= v0 <= cfg.max_velocity,
    ensures
        cfg.min_velocity <= velocity_after_events(v0, events, cfg) <= cfg.max_velocity,
    decreases events.len(),
{
    if events.len() > 0 {
        lemma_velocity_always_clamped(v0, events.drop_last(), cfg);
    }
}

/// Executable gravity step: returns `v` after `dt_ms` of gravity `g`,
/// clamped into `[lo, hi]`.
pub fn integrate_gravity(v: i64, g: i64, dt_ms: u64, lo: i64, hi: i64) -> (r: i64)
    requires
        1 <= g <= CONFIG_LIMIT,
        dt_ms <= MAX_TICK_MS,
        -CONFIG_LIMIT <= lo <= hi <= CONFIG_LIMIT,
        -CONFIG_LIMIT <= v <= CONFIG_LIMIT,
    ensures
        r == gravity_velocity(v as int, g as int, dt_ms as int, lo as int, hi as int),
        lo <= r <= hi,
{
    proof {
        lemma_product_in_range(g as int, dt_ms as int, CONFIG_LIMIT as int, MAX_TICK_MS as int);
    }
    let fall: i64 = g * (dt_ms as i64) / 1000;
    let nv: i64 = v - fall;
    if nv < lo {
        lo
    } else if nv > hi {
        hi
    } else {
        nv
    }
}

/// Executable position step: Euler integration with the boundary-skip rule;
/// see [`position_after`].
pub fn integrate_position(y: i64, v: i64, dt_ms: u64, top: i64) -> (r: i64)
    requires
        0 <= top <= CONFIG_LIMIT,
        -CONFIG_LIMIT <= v <= CONFIG_LIMIT,
        dt_ms <= MAX_TICK_MS,
        -COORD_LIMIT <= y <= COORD_LIMIT,
    ensures
        r == position_after(y as int, v as int, dt_ms as int, top as int),
{
    if (v >= 0 && y >= top) || (v <= 0 && y <= -top) {
        y
    } else {
        proof {
            if v >= 0 {
                lemma_product_in_range(
                    v as int,
                    dt_ms as int,
                    CONFIG_LIMIT as int,
                    MAX_TICK_MS as int,
                );
            } else {
                lemma_product_in_range(
                    -(v as int),
                    dt_ms as int,
                    CONFIG_LIMIT as int,
                    MAX_TICK_MS as int,
                );
            }
        }
        let dy: i64 = if v >= 0 {
            v * (dt_ms as i64) / 1000
        } else {
            -(-v * (dt_ms as i64) / 1000)
        };
        y + dy
    }
}

} // verus!
