//! Axis-separated collision resolution against static solids.
//!
//! A desired displacement is applied one axis at a time: the body first
//! moves by the x-component and is clamped out of every solid whose y-range
//! overlaps its own, in list order, with the clamp side chosen from the sign
//! of the intended x-displacement; then the same happens for y at the
//! already-resolved x.  Axis separation is a deliberate simplification that
//! admits corner cases on diagonal motion into concave corners.

use vstd::prelude::*;
use crate::geom::{Vec2i, half_wf, overlaps, vec_in_coord};
use crate::units::{abs_i, COORD_LIMIT, DELTA_LIMIT, HALF_EXTENT_LIMIT};

verus! {

/// Bound on a coordinate coming out of the resolver: either the tentative
/// coordinate (`COORD_LIMIT + DELTA_LIMIT` at most) or a clamp against a
/// solid edge, which is nearer still.
pub const RESOLVED_BOUND: i64 = 2_000_000_000;

/// An immutable axis-aligned rectangle the resolver clamps against.  A
/// solid marked as a door blocker is removed when the door unlocks.
#[derive(Clone, Copy, PartialEq, Eq, Structural, Debug)]
pub struct Solid {
    pub pos: Vec2i,
    pub half: Vec2i,
    pub door_blocker: bool,
}

/// A well-formed solid: bounded coordinates and half-extents.
pub open spec fn solid_wf(s: Solid) -> bool {
    &&& vec_in_coord(s.pos)
    &&& half_wf(s.half)
}

/// Every solid in the list is well-formed.
pub open spec fn solids_wf(solids: Seq<Solid>) -> bool {
    forall|i: int| 0 <= i < solids.len() ==> solid_wf(#[trigger] solids[i])
}

/// The body's x-range at center `x` with half-width `hx` overlaps the
/// solid's x-range.
pub open spec fn x_ranges_overlap(x: int, hx: int, s: Solid) -> bool {
    abs_i(x - s.pos.x) < hx + s.half.x
}

/// The body's y-range at center `y` with half-height `hy` overlaps the
/// solid's y-range.
pub open spec fn y_ranges_overlap(y: int, hy: int, s: Solid) -> bool {
    abs_i(y - s.pos.y) < hy + s.half.y
}

/// The x-coordinate a body is clamped to when it penetrates `s` while
/// moving with x-displacement of sign `dx`: flush against the side of `s`
/// the motion came from.
pub open spec fn x_clamp(dx: int, hx: int, s: Solid) -> int {
    if dx > 0 {
        s.pos.x - s.half.x - hx
    } else {
        s.pos.x + s.half.x + hx
    }
}

/// The y-coordinate a body is clamped to when it penetrates `s` while
/// moving with y-displacement of sign `dy`.
pub open spec fn y_clamp(dy: int, hy: int, s: Solid) -> int {
    if dy > 0 {
        s.pos.y - s.half.y - hy
    } else {
        s.pos.y + s.half.y + hy
    }
}

/// The x-pass over the first `n` solids: starting from the tentative
/// coordinate `x0`, each solid whose y-range overlaps the body's (at fixed
/// `y`) and whose x-range overlaps the body's current x clamps the body out
/// of itself.  Returns the resolved x and whether any solid clamped.
pub open spec fn x_pass(x0: int, y: int, half: Vec2i, dx: int, solids: Seq<Solid>, n: int) -> (int, bool)
    decreases n,
{
    if n <= 0 {
        (x0, false)
    } else {
        let prev = x_pass(x0, y, half, dx, solids, n - 1);
        let s = solids[n - 1];
        if y_ranges_overlap(y, half.y as int, s) && x_ranges_overlap(prev.0, half.x as int, s) {
            (x_clamp(dx, half.x as int, s), true)
        } else {
            prev
        }
    }
}

/// The y-pass over the first `n` solids, at fixed, already resolved `x`.
pub open spec fn y_pass(y0: int, x: int, half: Vec2i, dy: int, solids: Seq<Solid>, n: int) -> (int, bool)
    decreases n,
{
    if n <= 0 {
        (y0, false)
    } else {
        let prev = y_pass(y0, x, half, dy, solids, n - 1);
        let s = solids[n - 1];
        if x_ranges_overlap(x, half.x as int, s) && y_ranges_overlap(prev.0, half.y as int, s) {
            (y_clamp(dy, half.y as int, s), true)
        } else {
            prev
        }
    }
}

/// The resolved x-coordinate and x-hit flag: the x-pass if the displacement
/// has an x-component, the starting coordinate untouched otherwise.
pub open spec fn resolve_x(pos: Vec2i, delta: Vec2i, half: Vec2i, solids: Seq<Solid>) -> (int, bool) {
    if delta.x != 0 {
        x_pass(pos.x + delta.x, pos.y as int, half, delta.x as int, solids, solids.len() as int)
    } else {
        (pos.x as int, false)
    }
}

/// The resolved y-coordinate and y-hit flag, computed at the resolved x.
pub open spec fn resolve_y(pos: Vec2i, delta: Vec2i, half: Vec2i, solids: Seq<Solid>) -> (int, bool) {
    if delta.y != 0 {
        y_pass(
            pos.y + delta.y,
            resolve_x(pos, delta, half, solids).0,
            half,
            delta.y as int,
            solids,
            solids.len() as int,
        )
    } else {
        (pos.y as int, false)
    }
}

/// Resolves the desired displacement `delta` of a body of half-extents
/// `half` at `pos` against `solids`, x-axis first, and reports whether a
/// collision occurred on each axis.  A zero displacement never changes the
/// position.
pub fn move_with_collisions(pos: &mut Vec2i, delta: Vec2i, half: Vec2i, solids: &Vec<Solid>) -> (hit: (
    bool,
    bool,
))
    requires
        vec_in_coord(*old(pos)),
        -DELTA_LIMIT <= delta.x <= DELTA_LIMIT,
        -DELTA_LIMIT <= delta.y <= DELTA_LIMIT,
        half_wf(half),
        solids_wf(solids@),
    ensures
        final(pos).x == resolve_x(*old(pos), delta, half, solids@).0,
        final(pos).y == resolve_y(*old(pos), delta, half, solids@).0,
        hit.0 == resolve_x(*old(pos), delta, half, solids@).1,
        hit.1 == resolve_y(*old(pos), delta, half, solids@).1,
        delta.x == 0 && delta.y == 0 ==> *final(pos) == *old(pos) && !hit.0 && !hit.1,
        -RESOLVED_BOUND <= final(pos).x <= RESOLVED_BOUND,
        -RESOLVED_BOUND <= final(pos).y <= RESOLVED_BOUND,
{
    let mut hit_x = false;
    let mut hit_y = false;
    let ghost pos0 = *pos;
    if delta.x != 0 {
        let mut x: i64 = pos.x + delta.x;
        let ghost x0 = x as int;
        let mut i: usize = 0;
        while i < solids.len()
            invariant
                0 <= i <= solids.len(),
                vec_in_coord(pos0),
                *pos == pos0,
                half_wf(half),
                solids_wf(solids@),
                -DELTA_LIMIT <= delta.x <= DELTA_LIMIT,
                x0 == pos0.x + delta.x,
                (x as int, hit_x) == x_pass(x0, pos0.y as int, half, delta.x as int, solids@, i as int),
                x == x0 || -COORD_LIMIT - 2 * HALF_EXTENT_LIMIT <= x <= COORD_LIMIT + 2 * HALF_EXTENT_LIMIT,
            decreases solids.len() - i,
        {
            let s = solids[i];
            let dyv: i64 = if pos.y >= s.pos.y {
                pos.y - s.pos.y
            } else {
                s.pos.y - pos.y
            };
            if dyv < half.y + s.half.y {
                let dxv: i64 = if x >= s.pos.x {
                    x - s.pos.x
                } else {
                    s.pos.x - x
                };
                if dxv < half.x + s.half.x {
                    hit_x = true;
                    x = if delta.x > 0 {
                        s.pos.x - s.half.x - half.x
                    } else {
                        s.pos.x + s.half.x + half.x
                    };
                }
            }
            i = i + 1;
        }
        pos.x = x;
    }
    if delta.y != 0 {
        let mut y: i64 = pos.y + delta.y;
        let ghost y0 = y as int;
        let mut i: usize = 0;
        while i < solids.len()
            invariant
                0 <= i <= solids.len(),
                vec_in_coord(pos0),
                pos.y == pos0.y,
                pos.x == resolve_x(pos0, delta, half, solids@).0,
                -RESOLVED_BOUND <= pos.x <= RESOLVED_BOUND,
                half_wf(half),
                solids_wf(solids@),
                -DELTA_LIMIT <= delta.y <= DELTA_LIMIT,
                delta.y != 0,
                y0 == pos0.y + delta.y,
                (y as int, hit_y) == y_pass(y0, pos.x as int, half, delta.y as int, solids@, i as int),
                y == y0 || -COORD_LIMIT - 2 * HALF_EXTENT_LIMIT <= y <= COORD_LIMIT + 2 * HALF_EXTENT_LIMIT,
            decreases solids.len() - i,
        {
            let s = solids[i];
            let dxv: i64 = if pos.x >= s.pos.x {
                pos.x - s.pos.x
            } else {
                s.pos.x - pos.x
            };
            if dxv < half.x + s.half.x {
                let dyv: i64 = if y >= s.pos.y {
                    y - s.pos.y
                } else {
                    s.pos.y - y
                };
                if dyv < half.y + s.half.y {
                    hit_y = true;
                    y = if delta.y > 0 {
                        s.pos.y - s.half.y - half.y
                    } else {
                        s.pos.y + s.half.y + half.y
                    };
                }
            }
            i = i + 1;
        }
        pos.y = y;
    }
    (hit_x, hit_y)
}

/// Two solids keep clearance for a body of half-extents `half`: on some
/// axis their distance is at least the sum of their half-extents plus the
/// body's full extent, so the body can never touch both at once on that
/// axis.
pub open spec fn clearance_apart(a: Solid, b: Solid, half: Vec2i) -> bool {
    ||| abs_i(a.pos.x - b.pos.x) >= a.half.x + b.half.x + 2 * half.x
    ||| abs_i(a.pos.y - b.pos.y) >= a.half.y + b.half.y + 2 * half.y
}

/// Every two distinct solids in the list keep clearance for the body.
pub open spec fn solids_have_clearance(solids: Seq<Solid>, half: Vec2i) -> bool {
    forall|i: int, j: int|
        0 <= i < solids.len() && 0 <= j < solids.len() && i != j ==> clearance_apart(
            #[trigger] solids[i],
            #[trigger] solids[j],
            half,
        )
}

/// After the x-pass over the first `n` solids, no solid among them overlaps
/// the body on both axes: each solid was clamped out when reached, and a
/// later clamp cannot push the body back into an earlier solid because the
/// two solids keep clearance.
proof fn lemma_x_pass_sound(x0: int, y: int, half: Vec2i, dx: int, solids: Seq<Solid>, n: int)
    requires
        0 <= n <= solids.len(),
        half_wf(half),
        solids_have_clearance(solids, half),
    ensures
        forall|i: int|
            0 <= i < n ==> !(y_ranges_overlap(y, half.y as int, #[trigger] solids[i])
                && x_ranges_overlap(x_pass(x0, y, half, dx, solids, n).0, half.x as int, solids[i])),
    decreases n,
{
    if n > 0 {
        lemma_x_pass_sound(x0, y, half, dx, solids, n - 1);
        let prev = x_pass(x0, y, half, dx, solids, n - 1);
        let s = solids[n - 1];
        if y_ranges_overlap(y, half.y as int, s) && x_ranges_overlap(prev.0, half.x as int, s) {
            let xc = x_clamp(dx, half.x as int, s);
            assert forall|i: int|
                0 <= i < n implies !(y_ranges_overlap(y, half.y as int, #[trigger] solids[i])
                && x_ranges_overlap(xc, half.x as int, solids[i])) by {
                if i < n - 1 && y_ranges_overlap(y, half.y as int, solids[i]) && x_ranges_overlap(
                    xc,
                    half.x as int,
                    solids[i],
                ) {
                    assert(clearance_apart(solids[i], solids[n - 1], half));
                }
            }
        }
    }
}

/// The y-pass counterpart of `lemma_x_pass_sound`, at fixed x.
proof fn lemma_y_pass_sound(y0: int, x: int, half: Vec2i, dy: int, solids: Seq<Solid>, n: int)
    requires
        0 <= n <= solids.len(),
        half_wf(half),
        solids_have_clearance(solids, half),
    ensures
        forall|i: int|
            0 <= i < n ==> !(x_ranges_overlap(x, half.x as int, #[trigger] solids[i])
                && y_ranges_overlap(y_pass(y0, x, half, dy, solids, n).0, half.y as int, solids[i])),
    decreases n,
{
    if n > 0 {
        lemma_y_pass_sound(y0, x, half, dy, solids, n - 1);
        let prev = y_pass(y0, x, half, dy, solids, n - 1);
        let s = solids[n - 1];
        if x_ranges_overlap(x, half.x as int, s) && y_ranges_overlap(prev.0, half.y as int, s) {
            let yc = y_clamp(dy, half.y as int, s);
            assert forall|i: int|
                0 <= i < n implies !(x_ranges_overlap(x, half.x as int, #[trigger] solids[i])
                && y_ranges_overlap(yc, half.y as int, solids[i])) by {
                if i < n - 1 && x_ranges_overlap(x, half.x as int, solids[i]) && y_ranges_overlap(
                    yc,
                    half.y as int,
                    solids[i],
                ) {
                    assert(clearance_apart(solids[i], solids[n - 1], half));
                }
            }
        }
    }
}

/// No residual penetration: for a non-zero displacement against solids that
/// pairwise keep clearance for the body, the position the resolver returns
/// overlaps no solid.  (With overlapping or tightly packed solids a later
/// clamp can push the body back into an earlier solid, so the clearance
/// hypothesis is needed; a zero displacement skips both passes by design.)
pub proof fn lemma_no_residual_penetration(
    pos: Vec2i,
    delta: Vec2i,
    half: Vec2i,
    solids: Seq<Solid>,
    resolved: Vec2i,
)
    requires
        half_wf(half),
        solids_have_clearance(solids, half),
        delta.x != 0 || delta.y != 0,
        resolved.x == resolve_x(pos, delta, half, solids).0,
        resolved.y == resolve_y(pos, delta, half, solids).0,
    ensures
        forall|i: int|
            0 <= i < solids.len() ==> !overlaps(
                resolved,
                half,
                (#[trigger] solids[i]).pos,
                solids[i].half,
            ),
{
    let n = solids.len() as int;
    if delta.y != 0 {
        let x = resolve_x(pos, delta, half, solids).0;
        lemma_y_pass_sound(pos.y + delta.y, x, half, delta.y as int, solids, n);
    } else {
        lemma_x_pass_sound(pos.x + delta.x, pos.y as int, half, delta.x as int, solids, n);
    }
}

} // verus!
