//! Axis-aligned geometry: integer 2D vectors and box overlap.

use vstd::prelude::*;
use crate::units::{abs_i, COORD_LIMIT, HALF_EXTENT_LIMIT};

verus! {

/// Height of the level in milli-units; screen-space y grows downward, world
/// y grows upward, and this constant converts between the two.
pub const LEVEL_HEIGHT_MU: i64 = 225_000;

/// Width of the level in milli-units.
pub const LEVEL_WIDTH_MU: i64 = 1_600_000;

/// A 2D vector of fixed-point coordinates in milli-units.
#[derive(Clone, Copy, PartialEq, Eq, Structural, Debug)]
pub struct Vec2i {
    pub x: i64,
    pub y: i64,
}

/// Both coordinates lie inside the world coordinate bound.
pub open spec fn vec_in_coord(v: Vec2i) -> bool {
    &&& -COORD_LIMIT <= v.x <= COORD_LIMIT
    &&& -COORD_LIMIT <= v.y <= COORD_LIMIT
}

/// Bound on coordinates handed to the overlap test; wide enough for any
/// position the resolver can produce plus a melee-sized offset.
pub const GEOM_BOUND: i64 = 4_000_000_000;

/// Both coordinates lie inside the overlap test's argument bound.
pub open spec fn vec_in_geom(v: Vec2i) -> bool {
    &&& -GEOM_BOUND <= v.x <= GEOM_BOUND
    &&& -GEOM_BOUND <= v.y <= GEOM_BOUND
}

/// A non-solid axis-aligned region whose overlap with the player produces
/// a gameplay side effect: ladder, hazard, key, checkpoint or princess.
#[derive(Clone, Copy, PartialEq, Eq, Structural, Debug)]
pub struct Volume {
    pub pos: Vec2i,
    pub half: Vec2i,
}

/// A well-formed trigger volume: bounded coordinates and half-extents.
pub open spec fn volume_wf(v: Volume) -> bool {
    &&& vec_in_coord(v.pos)
    &&& half_wf(v.half)
}

/// Every volume in the list is well-formed.
pub open spec fn volumes_wf(vs: Seq<Volume>) -> bool {
    forall|i: int| 0 <= i < vs.len() ==> volume_wf(#[trigger] vs[i])
}

/// A well-formed pair of box half-extents: non-negative and bounded.
pub open spec fn half_wf(h: Vec2i) -> bool {
    &&& 0 <= h.x <= HALF_EXTENT_LIMIT
    &&& 0 <= h.y <= HALF_EXTENT_LIMIT
}

/// Two axis-aligned boxes, given by center and half-extents, overlap: on
/// each axis the center-to-center distance is strictly below the sum of the
/// half-extents.
pub open spec fn overlaps(pos_a: Vec2i, half_a: Vec2i, pos_b: Vec2i, half_b: Vec2i) -> bool {
    &&& abs_i(pos_a.x - pos_b.x) < half_a.x + half_b.x
    &&& abs_i(pos_a.y - pos_b.y) < half_a.y + half_b.y
}

/// Axis-aligned box overlap test.
pub fn aabb_intersects(pos_a: Vec2i, half_a: Vec2i, pos_b: Vec2i, half_b: Vec2i) -> (r: bool)
    requires
        vec_in_geom(pos_a),
        vec_in_geom(pos_b),
        half_wf(half_a),
        half_wf(half_b),
    ensures
        r == overlaps(pos_a, half_a, pos_b, half_b),
{
    let dx: i64 = if pos_a.x >= pos_b.x {
        pos_a.x - pos_b.x
    } else {
        pos_b.x - pos_a.x
    };
    let dy: i64 = if pos_a.y >= pos_b.y {
        pos_a.y - pos_b.y
    } else {
        pos_b.y - pos_a.y
    };
    dx < half_a.x + half_b.x && dy < half_a.y + half_b.y
}

/// The overlap test is symmetric in its two boxes.
pub proof fn lemma_overlap_symmetric(pos_a: Vec2i, half_a: Vec2i, pos_b: Vec2i, half_b: Vec2i)
    ensures
        overlaps(pos_a, half_a, pos_b, half_b) == overlaps(pos_b, half_b, pos_a, half_a),
{
}

/// The box at `pos` with half-extents `half` overlaps some volume in the
/// list.
pub open spec fn overlaps_any(pos: Vec2i, half: Vec2i, vs: Seq<Volume>) -> bool {
    exists|i: int| 0 <= i < vs.len() && overlaps(pos, half, vs[i].pos, vs[i].half)
}

/// Whether the box overlaps any volume in the list.
pub fn overlaps_any_volume(pos: Vec2i, half: Vec2i, vs: &Vec<Volume>) -> (r: bool)
    requires
        vec_in_geom(pos),
        half_wf(half),
        volumes_wf(vs@),
    ensures
        r == overlaps_any(pos, half, vs@),
{
    let mut i: usize = 0;
    while i < vs.len()
        invariant
            0 <= i <= vs.len(),
            vec_in_geom(pos),
            half_wf(half),
            volumes_wf(vs@),
            forall|j: int|
                0 <= j < i ==> !#[trigger] overlaps(pos, half, vs@[j].pos, vs@[j].half),
        decreases vs.len() - i,
    {
        let v = vs[i];
        if aabb_intersects(pos, half, v.pos, v.half) {
            return true;
        }
        i = i + 1;
    }
    false
}

/// Converts screen-space coordinates (y growing downward from the top of
/// the level) to world coordinates (y growing upward).
pub fn to_world(pos: Vec2i) -> (r: Vec2i)
    requires
        vec_in_coord(pos),
    ensures
        r.x == pos.x,
        r.y == LEVEL_HEIGHT_MU - pos.y,
{
    Vec2i { x: pos.x, y: LEVEL_HEIGHT_MU - pos.y }
}

} // verus!
