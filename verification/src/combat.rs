//! Melee combat: evaluating the player's swing against the guards.
//!
//! The melee hitbox is anchored ahead of the player in the facing
//! direction; a guard is hit when that hitbox overlaps its box or when its
//! center is within a fixed melee range of the player — a deliberately
//! generous double test.  A hit guard starts dying: it stops, loses its
//! collision participation and fades out; an already-dying guard is never
//! hit again.

use vstd::prelude::*;
use vstd::pervasive::VecAdditionalExecFns;
use crate::geom::{Vec2i, aabb_intersects, overlaps, vec_in_coord};
use crate::guard::{Guard, guard_wf, guards_wf};
use crate::timer::EffectTimer;
use crate::units::abs_i;

verus! {

/// Horizontal offset of the melee hitbox from the player, in the facing
/// direction.
pub const SWORD_OFFSET_X: i64 = 12_000;

/// Downward offset of the melee hitbox from the player.
pub const SWORD_OFFSET_Y: i64 = 4_000;

/// Half-width of the melee hitbox.
pub const SWORD_HALF_X: i64 = 9_000;

/// Half-height of the melee hitbox.
pub const SWORD_HALF_Y: i64 = 5_000;

/// The center-to-center distance under which a swing hits regardless of
/// the hitbox.
pub const MELEE_RANGE: i64 = 26_000;

/// How long a dying guard fades before removal, in milliseconds.
pub const FADE_DURATION: i64 = 300;

/// Where the melee hitbox sits for a player at `pos` facing `dir`.
pub open spec fn sword_pos_spec(pos: Vec2i, dir: int) -> Vec2i {
    Vec2i {
        x: if dir >= 0 {
            (pos.x + SWORD_OFFSET_X) as i64
        } else {
            (pos.x - SWORD_OFFSET_X) as i64
        },
        y: (pos.y - SWORD_OFFSET_Y) as i64,
    }
}

/// The guard's center is within melee range of the player's center
/// (Euclidean distance at most [`MELEE_RANGE`]).
pub open spec fn within_melee_range(player_pos: Vec2i, guard_pos: Vec2i) -> bool {
    let dx = guard_pos.x - player_pos.x;
    let dy = guard_pos.y - player_pos.y;
    dx * dx + dy * dy <= MELEE_RANGE * MELEE_RANGE
}

/// A swing from `player_pos` facing `dir` hits the guard: the melee hitbox
/// overlaps the guard's box, or the guard is within melee range.
pub open spec fn melee_hits(player_pos: Vec2i, dir: int, g: Guard) -> bool {
    ||| overlaps(
        sword_pos_spec(player_pos, dir),
        Vec2i { x: SWORD_HALF_X, y: SWORD_HALF_Y },
        g.pos,
        g.half,
    )
    ||| within_melee_range(player_pos, g.pos)
}

/// The guard after being hit: dying, stopped, fading out.
pub open spec fn killed_guard(g: Guard) -> Guard {
    Guard {
        alive: false,
        vel: Vec2i { x: 0, y: 0 },
        fade: Option::Some(EffectTimer { elapsed: 0, duration: FADE_DURATION }),
        ..g
    }
}

/// One guard after a swing: killed when alive and hit, untouched
/// otherwise.  An already-dying guard is never re-marked.
pub open spec fn hit_one_spec(player_pos: Vec2i, dir: int, g: Guard) -> Guard {
    if g.alive && melee_hits(player_pos, dir, g) {
        killed_guard(g)
    } else {
        g
    }
}

/// The whole roster after a swing.
pub open spec fn hit_guards_spec(player_pos: Vec2i, dir: int, gs: Seq<Guard>) -> Seq<Guard> {
    gs.map_values(|g: Guard| hit_one_spec(player_pos, dir, g))
}

/// Evaluates one swing against every guard.  Dying guards are left exactly
/// as they are, so applying a swing twice marks nobody twice.
pub fn try_hit_guard(player_pos: Vec2i, dir: i64, guards: &mut Vec<Guard>)
    requires
        vec_in_coord(player_pos),
        dir == 1 || dir == -1,
        guards_wf(old(guards)@),
    ensures
        final(guards)@ == hit_guards_spec(player_pos, dir as int, old(guards)@),
        forall|i: int|
            0 <= i < old(guards)@.len() && !old(guards)@[i].alive ==> final(guards)@[i] == old(
                guards,
            )@[i],
        guards_wf(final(guards)@),
{
    let ghost orig = guards@;
    let sword_pos = Vec2i {
        x: if dir >= 0 {
            player_pos.x + SWORD_OFFSET_X
        } else {
            player_pos.x - SWORD_OFFSET_X
        },
        y: player_pos.y - SWORD_OFFSET_Y,
    };
    let sword_half = Vec2i { x: SWORD_HALF_X, y: SWORD_HALF_Y };
    let mut i: usize = 0;
    while i < guards.len()
        invariant
            0 <= i <= guards.len(),
            guards@.len() == orig.len(),
            guards_wf(orig),
            vec_in_coord(player_pos),
            dir == 1 || dir == -1,
            sword_pos == sword_pos_spec(player_pos, dir as int),
            sword_half == (Vec2i { x: SWORD_HALF_X, y: SWORD_HALF_Y }),
            forall|j: int| i <= j < orig.len() ==> #[trigger] guards@[j] == orig[j],
            forall|j: int|
                0 <= j < i ==> #[trigger] guards@[j] == hit_one_spec(player_pos, dir as int, orig[j]),
            forall|j: int| 0 <= j < i ==> guard_wf(#[trigger] guards@[j]),
        decreases guards.len() - i,
    {
        let g = guards[i];
        if g.alive {
            let box_hit = aabb_intersects(sword_pos, sword_half, g.pos, g.half);
            let near = in_melee_range(player_pos, g.pos);
            if box_hit || near {
                guards.set(
                    i,
                    Guard {
                        alive: false,
                        vel: Vec2i { x: 0, y: 0 },
                        fade: Option::Some(EffectTimer { elapsed: 0, duration: FADE_DURATION }),
                        ..g
                    },
                );
            }
        }
        i = i + 1;
    }
    proof {
        assert(guards@ =~= hit_guards_spec(player_pos, dir as int, orig));
    }
}

/// The Euclidean melee-range test, computed with a coarse gate so the
/// squares stay small.
fn in_melee_range(player_pos: Vec2i, guard_pos: Vec2i) -> (r: bool)
    requires
        vec_in_coord(player_pos),
        vec_in_coord(guard_pos),
    ensures
        r == within_melee_range(player_pos, guard_pos),
{
    let dx: i64 = guard_pos.x - player_pos.x;
    let dy: i64 = guard_pos.y - player_pos.y;
    if dx > MELEE_RANGE || dx < -MELEE_RANGE || dy > MELEE_RANGE || dy < -MELEE_RANGE {
        proof {
            assert(abs_i(dx as int) > MELEE_RANGE || abs_i(dy as int) > MELEE_RANGE);
            assert(dx * dx + dy * dy > MELEE_RANGE * MELEE_RANGE) by (nonlinear_arith)
                requires
                    abs_i(dx as int) > MELEE_RANGE || abs_i(dy as int) > MELEE_RANGE,
            ;
        }
        false
    } else {
        proof {
            assert(0 <= dx * dx <= MELEE_RANGE * MELEE_RANGE && 0 <= dy * dy <= MELEE_RANGE
                * MELEE_RANGE) by (nonlinear_arith)
                requires
                    -MELEE_RANGE <= dx <= MELEE_RANGE,
                    -MELEE_RANGE <= dy <= MELEE_RANGE,
            ;
        }
        dx * dx + dy * dy <= MELEE_RANGE * MELEE_RANGE
    }
}

} // verus!
