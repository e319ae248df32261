//! Session configuration: the tunable constants of the simulation and the
//! well-formedness conditions a session requires of them.
//!
//! All lengths are in milliunits (thousandths of a world unit), velocities in
//! milliunits per second, accelerations in milliunits per second squared, and
//! times in milliseconds.

use vstd::prelude::*;

verus! {

/// Half the flyer's collider width, in milliunits.
pub const FLYER_HALF_WIDTH: i64 = 17_000;

/// Half the flyer's collider height, in milliunits.
pub const FLYER_HALF_HEIGHT: i64 = 12_000;

/// Half a gate's collider width, in milliunits.
pub const GATE_HALF_WIDTH: i64 = 26_000;

/// Half a gate's collider height, in milliunits.
pub const GATE_HALF_HEIGHT: i64 = 160_000;

/// Horizontal distance past the right field edge at which gates spawn.
pub const SPAWN_MARGIN: i64 = 100_000;

/// Horizontal distance past the left field edge at which gates are retired.
pub const RETIRE_MARGIN: i64 = 50_000;

/// Half-width of the vertical band, centred on the lower field boundary,
/// from which a floor gate's centre is drawn.
pub const BAND_HALF_WIDTH: i64 = 75_000;

/// Smallest vertical distance between a floor gate's centre and its ceiling
/// partner's centre.
pub const MIN_GAP: i64 = 400_000;

/// Width of the half-open range above `MIN_GAP` from which the gap is drawn.
pub const GAP_SPREAD: i64 = 95_000;

/// Largest elapsed time a single simulation tick accepts, in milliseconds.
pub const MAX_TICK_MS: u64 = 60_000;

/// Smallest timer target: a repeating timer never counts down to less than
/// one millisecond, so it cannot fire endlessly within a tick.
pub const MIN_TIMER_TARGET_MS: u64 = 1;

/// Largest timer target accepted, in milliseconds.
pub const MAX_TIMER_TARGET_MS: u64 = 10_000_000;

/// Magnitude bound on every configurable scalar, chosen so that all tick
/// arithmetic stays well inside `i64`.
pub const CONFIG_LIMIT: i64 = 1_000_000_000;

/// Coordinate magnitude up to which positions can be integrated and
/// collision boxes built without overflow; every well-formed session stays
/// far inside it.
pub const COORD_LIMIT: i64 = 2_000_000_000_000;

/// Tunable constants of one simulation session, fixed at session start.
#[derive(Clone, Copy, Debug, PartialEq, Eq, Structural)]
pub struct Config {
    /// Downward acceleration applied to the flyer, milliunits per second squared.
    pub gravity: i64,
    /// Velocity the flyer's vertical speed is reset to on a flap, milliunits per second.
    pub flap_velocity: i64,
    /// Lower clamp on the flyer's vertical velocity, milliunits per second.
    pub min_velocity: i64,
    /// Upper clamp on the flyer's vertical velocity, milliunits per second.
    pub max_velocity: i64,
    /// Leftward speed of every gate, milliunits per second.
    pub gate_speed: i64,
    /// Floor of the spawn timer's difficulty-scaled target, milliseconds.
    pub min_spawn_interval_ms: u64,
    /// Ceiling of the spawn timer's target, used while the score is low, milliseconds.
    pub max_spawn_interval_ms: u64,
    /// Fixed target of the score timer, milliseconds.
    pub score_interval_ms: u64,
    /// Width of the play-field, milliunits.
    pub field_width: i64,
    /// Height of the play-field, milliunits.
    pub field_height: i64,
}

impl Config {
    /// A configuration the simulation can run on: positive durations and
    /// dimensions, ordered velocity clamps, and magnitudes small enough that
    /// no tick arithmetic overflows.
    pub open spec fn wf(self) -> bool {
        &&& 1 <= self.gravity <= CONFIG_LIMIT
        &&& -CONFIG_LIMIT <= self.min_velocity <= 0
        &&& 0 <= self.max_velocity <= CONFIG_LIMIT
        &&& 1 <= self.flap_velocity <= self.max_velocity
        &&& 1 <= self.gate_speed <= CONFIG_LIMIT
        &&& MIN_TIMER_TARGET_MS <= self.min_spawn_interval_ms
        &&& self.min_spawn_interval_ms <= self.max_spawn_interval_ms
        &&& self.max_spawn_interval_ms <= MAX_TIMER_TARGET_MS
        &&& MIN_TIMER_TARGET_MS <= self.score_interval_ms <= MAX_TIMER_TARGET_MS
        &&& 1 <= self.field_width <= CONFIG_LIMIT
        &&& 2 * FLYER_HALF_HEIGHT <= self.field_height <= CONFIG_LIMIT
    }

    /// Highest flyer centre that still keeps the whole flyer inside the
    /// field: half the field height minus the flyer's half height.
    pub open spec fn top_bound(self) -> int {
        self.field_height / 2 - FLYER_HALF_HEIGHT
    }

    /// Largest speed magnitude the velocity clamp permits in either
    /// direction.
    pub open spec fn vel_limit(self) -> int {
        if -self.min_velocity > self.max_velocity {
            -self.min_velocity
        } else {
            self.max_velocity as int
        }
    }

    /// Farthest the flyer can travel in one tick; the position invariant
    /// allows this much overshoot beyond the field boundary.
    pub open spec fn bound_slack(self) -> int {
        self.vel_limit() * (MAX_TICK_MS as int) / 1000
    }

    /// Horizontal centre at which new gates appear.
    pub open spec fn spawn_x(self) -> int {
        self.field_width / 2 + SPAWN_MARGIN
    }

    /// Horizontal centre below which a gate is retired.
    pub open spec fn retire_x(self) -> int {
        -(self.field_width / 2) - RETIRE_MARGIN
    }

    /// Lowest floor-gate centre the spawner may draw.
    pub open spec fn band_low(self) -> int {
        -(self.field_height / 2) - BAND_HALF_WIDTH
    }

    /// One above the highest floor-gate centre the spawner may draw.
    pub open spec fn band_high(self) -> int {
        -(self.field_height / 2) + BAND_HALF_WIDTH
    }

    /// Runtime check of `wf`, for hosts that build a configuration from
    /// untrusted values.
    pub fn valid(&self) -> (r: bool)
        ensures
            r == self.wf(),
    {
        1 <= self.gravity && self.gravity <= CONFIG_LIMIT
            && -CONFIG_LIMIT <= self.min_velocity && self.min_velocity <= 0
            && 0 <= self.max_velocity && self.max_velocity <= CONFIG_LIMIT
            && 1 <= self.flap_velocity && self.flap_velocity <= self.max_velocity
            && 1 <= self.gate_speed && self.gate_speed <= CONFIG_LIMIT
            && MIN_TIMER_TARGET_MS <= self.min_spawn_interval_ms
            && self.min_spawn_interval_ms <= self.max_spawn_interval_ms
            && self.max_spawn_interval_ms <= MAX_TIMER_TARGET_MS
            && MIN_TIMER_TARGET_MS <= self.score_interval_ms
            && self.score_interval_ms <= MAX_TIMER_TARGET_MS
            && 1 <= self.field_width && self.field_width <= CONFIG_LIMIT
            && 2 * FLYER_HALF_HEIGHT <= self.field_height
            && self.field_height <= CONFIG_LIMIT
    }

    /// The stock configuration: a 700 x 400 unit field, gravity 200 units/s²,
    /// flap to 150 units/s, velocity clamped to ±250 units/s, gates moving at
    /// 100 units/s, spawn interval between 1.5 s and 3 s, one score point
    /// every 750 ms.
    pub open spec fn initial() -> Config {
        Config {
            gravity: 200_000,
            flap_velocity: 150_000,
            min_velocity: -250_000i64,
            max_velocity: 250_000,
            gate_speed: 100_000,
            min_spawn_interval_ms: 1500,
            max_spawn_interval_ms: 3000,
            score_interval_ms: 750,
            field_width: 700_000,
            field_height: 400_000,
        }
    }
}

impl Default for Config {
    /// The stock configuration; see [`Config::initial`].
    fn default() -> (r: Config)
        ensures
            r == Config::initial(),
            r.wf(),
    {
        Config {
            gravity: 200_000,
            flap_velocity: 150_000,
            min_velocity: -250_000,
            max_velocity: 250_000,
            gate_speed: 100_000,
            min_spawn_interval_ms: 1500,
            max_spawn_interval_ms: 3000,
            score_interval_ms: 750,
            field_width: 700_000,
            field_height: 400_000,
        }
    }
}

} // verus!
