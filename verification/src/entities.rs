//! The simulation's entities — the flyer and the gates — and their
//! world-space collision boxes.

use vstd::prelude::*;

use crate::config::{
    Config, COORD_LIMIT, FLYER_HALF_HEIGHT, FLYER_HALF_WIDTH, GATE_HALF_HEIGHT, GATE_HALF_WIDTH,
};
use crate::geom::{overlaps, Aabb};

verus! {

/// Magnitude bound on a stored gate's vertical centre.
pub const GATE_Y_LIMIT: i64 = 2_000_000_000;

/// One obstacle box. Gates come in floor/ceiling pairs; both halves share
/// the same collider, the ceiling half being the floor half mirrored
/// vertically for display.
#[derive(Clone, Copy, Debug, PartialEq, Eq, Structural)]
pub struct Gate {
    /// Horizontal centre, milliunits.
    pub x: i64,
    /// Vertical centre, milliunits.
    pub y: i64,
    /// Whether this is the mirrored ceiling half of its pair.
    pub ceiling: bool,
}

/// What kind of entity a renderable row describes.
#[derive(Clone, Copy, Debug, PartialEq, Eq, Structural)]
pub enum EntityKind {
    /// The player-controlled flyer.
    Flyer,
    /// One obstacle gate.
    Gate,
}

/// One row of the per-frame drawing list: kind, world position and
/// half-extent, in milliunits.
#[derive(Clone, Copy, Debug, PartialEq, Eq, Structural)]
pub struct Renderable {
    /// What the row describes.
    pub kind: EntityKind,
    /// Horizontal centre, milliunits.
    pub x: i64,
    /// Vertical centre, milliunits.
    pub y: i64,
    /// Half the drawn width, milliunits.
    pub half_width: i64,
    /// Half the drawn height, milliunits.
    pub half_height: i64,
}

/// Whether a gate's world-space box strictly overlaps the flyer's box;
/// the flyer's horizontal centre is fixed at zero.
pub open spec fn gate_hits_flyer(g: Gate, flyer_y: int) -> bool {
    &&& FLYER_HALF_WIDTH > g.x - GATE_HALF_WIDTH
    &&& -FLYER_HALF_WIDTH < g.x + GATE_HALF_WIDTH
    &&& flyer_y + FLYER_HALF_HEIGHT > g.y - GATE_HALF_HEIGHT
    &&& flyer_y - FLYER_HALF_HEIGHT < g.y + GATE_HALF_HEIGHT
}

/// Whether a stored gate's coordinates are in the range a well-formed
/// session keeps them in: horizontally between the retire line and the
/// spawn line, vertically bounded.
pub open spec fn gate_in_range(cfg: Config, g: Gate) -> bool {
    &&& cfg.retire_x() <= g.x <= cfg.spawn_x()
    &&& -GATE_Y_LIMIT <= g.y <= GATE_Y_LIMIT
}

/// The flyer's world-space collision box: its fixed half-extent translated
/// to vertical centre `y`; the horizontal centre is always zero.
pub fn flyer_box(y: i64) -> (r: Aabb)
    requires
        -COORD_LIMIT <= y <= COORD_LIMIT,
    ensures
        r.min_x == -FLYER_HALF_WIDTH,
        r.max_x == FLYER_HALF_WIDTH,
        r.min_y == y - FLYER_HALF_HEIGHT,
        r.max_y == y + FLYER_HALF_HEIGHT,
{
    Aabb {
        min_x: -FLYER_HALF_WIDTH,
        min_y: y - FLYER_HALF_HEIGHT,
        max_x: FLYER_HALF_WIDTH,
        max_y: y + FLYER_HALF_HEIGHT,
    }
}

/// A gate's world-space collision box: the fixed gate half-extent
/// translated to that gate's centre.
pub fn gate_box(g: &Gate) -> (r: Aabb)
    requires
        -COORD_LIMIT <= g.x <= COORD_LIMIT,
        -COORD_LIMIT <= g.y <= COORD_LIMIT,
    ensures
        r.min_x == g.x - GATE_HALF_WIDTH,
        r.max_x == g.x + GATE_HALF_WIDTH,
        r.min_y == g.y - GATE_HALF_HEIGHT,
        r.max_y == g.y + GATE_HALF_HEIGHT,
{
    Aabb {
        min_x: g.x - GATE_HALF_WIDTH,
        min_y: g.y - GATE_HALF_HEIGHT,
        max_x: g.x + GATE_HALF_WIDTH,
        max_y: g.y + GATE_HALF_HEIGHT,
    }
}

/// The box-level overlap test agrees with [`gate_hits_flyer`] on the boxes
/// the session builds.
pub proof fn lemma_gate_hit_is_box_overlap(g: Gate, flyer_y: int, fb: Aabb, gb: Aabb)
    requires
        fb.min_x == -FLYER_HALF_WIDTH,
        fb.max_x == FLYER_HALF_WIDTH,
        fb.min_y == flyer_y - FLYER_HALF_HEIGHT,
        fb.max_y == flyer_y + FLYER_HALF_HEIGHT,
        gb.min_x == g.x - GATE_HALF_WIDTH,
        gb.max_x == g.x + GATE_HALF_WIDTH,
        gb.min_y == g.y - GATE_HALF_HEIGHT,
        gb.max_y == g.y + GATE_HALF_HEIGHT,
    ensures
        overlaps(fb, gb) == gate_hits_flyer(g, flyer_y),
{
}

} // verus!
