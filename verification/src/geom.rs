//! Axis-aligned bounding boxes and the strict-overlap test used for
//! collision detection.

use vstd::prelude::*;

verus! {

/// An axis-aligned bounding box in world space, in milliunits.
/// `min_*` is the lower-left corner, `max_*` the upper-right corner.
#[derive(Clone, Copy, Debug, PartialEq, Eq, Structural)]
pub struct Aabb {
    pub min_x: i64,
    pub min_y: i64,
    pub max_x: i64,
    pub max_y: i64,
}

/// Strict (open-interval) AABB intersection: two boxes overlap only if they
/// share interior area; touching edges do not count.
pub open spec fn overlaps(a: Aabb, b: Aabb) -> bool {
    &&& a.max_x > b.min_x
    &&& a.min_x < b.max_x
    &&& a.max_y > b.min_y
    &&& a.min_y < b.max_y
}

/// Reports whether two boxes overlap, using the strict open-interval test on
/// both axes.
pub fn aabb_overlap(a: &Aabb, b: &Aabb) -> (r: bool)
    ensures
        r == overlaps(*a, *b),
{
    a.max_x > b.min_x && a.min_x < b.max_x && a.max_y > b.min_y && a.min_y < b.max_y
}

/// The overlap test is symmetric in its two arguments.
pub proof fn lemma_overlap_symmetric(a: Aabb, b: Aabb)
    ensures
        overlaps(a, b) == overlaps(b, a),
{
}

/// Boxes whose horizontal spans do not intersect never overlap, regardless of
/// their vertical alignment.
pub proof fn lemma_no_overlap_disjoint_x(a: Aabb, b: Aabb)
    requires
        a.max_x <= b.min_x || b.max_x <= a.min_x,
    ensures
        !overlaps(a, b),
{
}

} // verus!
