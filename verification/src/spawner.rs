//! Obstacle spawning: the difficulty-scaled spawn interval and the random
//! draws that place a new gate pair.

use vstd::prelude::*;

use crate::config::{Config, BAND_HALF_WIDTH, GAP_SPREAD, MIN_GAP};

verus! {

/// The spawn timer's next target for a given score: the maximum interval
/// shortened by half the score (in milliseconds), floored at the minimum
/// interval. Monotonically non-increasing in the score.
pub open spec fn spawn_interval_spec(score: int, min_ms: int, max_ms: int) -> int {
    let base = max_ms - score / 2;
    if base < min_ms {
        min_ms
    } else {
        base
    }
}

/// Computes the difficulty-scaled spawn interval for `score`; the result
/// always lies between the configured minimum and maximum intervals.
pub fn spawn_interval_ms(score: u32, cfg: &Config) -> (r: u64)
    requires
        cfg.wf(),
    ensures
        r as int == spawn_interval_spec(
            score as int,
            cfg.min_spawn_interval_ms as int,
            cfg.max_spawn_interval_ms as int,
        ),
        cfg.min_spawn_interval_ms <= r <= cfg.max_spawn_interval_ms,
{
    let half: u64 = (score / 2) as u64;
    let base: u64 = if cfg.max_spawn_interval_ms >= half {
        cfg.max_spawn_interval_ms - half
    } else {
        0
    };
    if base < cfg.min_spawn_interval_ms {
        cfg.min_spawn_interval_ms
    } else {
        base
    }
}

/// Relies on `fastrand::i64`: returns a draw from the half-open range
/// `lo..hi`, uniform over it; it panics only on an empty range, which the
/// precondition rules out.
#[verifier::external_body]
fn random_in_range(lo: i64, hi: i64) -> (r: i64)
    requires
        lo < hi,
    ensures
        lo <= r < hi,
{
    fastrand::i64(lo..hi)
}

/// Draws a floor gate's vertical centre: uniform over a band centred on the
/// lower field boundary.
pub fn draw_floor_y(cfg: &Config) -> (r: i64)
    requires
        cfg.wf(),
    ensures
        cfg.band_low() <= r < cfg.band_high(),
{
    let center: i64 = -(cfg.field_height / 2);
    random_in_range(center - BAND_HALF_WIDTH, center + BAND_HALF_WIDTH)
}

/// Draws the vertical distance between a floor gate's centre and its
/// ceiling partner's centre: uniform over the configured gap range.
pub fn draw_gap() -> (r: i64)
    ensures
        MIN_GAP <= r < MIN_GAP + GAP_SPREAD,
{
    random_in_range(MIN_GAP, MIN_GAP + GAP_SPREAD)
}

} // verus!
