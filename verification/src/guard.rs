//! Guard patrol: a state machine bouncing between two x-limits.
//!
//! While alive a guard walks at its patrol speed in its current direction,
//! falls under gravity, resolves collisions like the player, and is then
//! clamped into `[left_limit, right_limit]`; touching either bound flips
//! the direction for the next tick.  A dying guard is inert: it keeps its
//! place while its fade-out timer runs and is removed when that finishes.

use vstd::prelude::*;
use vstd::pervasive::VecAdditionalExecFns;
use crate::geom::{Vec2i, half_wf, vec_in_coord};
use crate::collide::{Solid, resolve_x, resolve_y, solids_wf};
use crate::timer::{EffectTimer, timer_wf};
use crate::units::{
    clamp_spec, scale_by_dt_spec, scale_by_dt, clamp_i64, COORD_LIMIT, DT_LIMIT, GRAVITY_LIMIT,
    VEL_LIMIT,
};

verus! {

/// Walk-animation phase accumulators wrap at this many milliseconds, which
/// leaves the two-frame animation index unchanged.
pub const WALK_PHASE_MOD: i64 = 2000;

/// How fast the patrol walk animation advances relative to real time.
pub const GUARD_WALK_RATE: i64 = 6;

/// Patrol speed of a fresh guard, milli-units per second.
pub const GUARD_SPEED: i64 = 40_000;

/// Gravity acting on a guard, milli-units per second squared (negative is
/// downward).
pub const GUARD_GRAVITY: i64 = -520_000;

/// Half-extents of the player's and the guards' collision boxes.
pub const ACTOR_HALF_X: i64 = 7_000;

/// Half-extents of the player's and the guards' collision boxes.
pub const ACTOR_HALF_Y: i64 = 12_000;

/// The immutable spawn description of one guard.
#[derive(Clone, Copy, PartialEq, Eq, Structural, Debug)]
pub struct GuardSpawn {
    pub pos: Vec2i,
    pub left: i64,
    pub right: i64,
}

/// A well-formed spawn: bounded position and ordered, bounded limits.
pub open spec fn spawn_wf(s: GuardSpawn) -> bool {
    &&& vec_in_coord(s.pos)
    &&& -COORD_LIMIT <= s.left <= s.right <= COORD_LIMIT
}

/// Every spawn in the roster is well-formed.
pub open spec fn spawns_wf(s: Seq<GuardSpawn>) -> bool {
    forall|i: int| 0 <= i < s.len() ==> spawn_wf(#[trigger] s[i])
}

/// One patrolling guard.
#[derive(Clone, Copy, Debug)]
pub struct Guard {
    pub pos: Vec2i,
    pub vel: Vec2i,
    pub half: Vec2i,
    pub speed: i64,
    pub gravity: i64,
    pub left_limit: i64,
    pub right_limit: i64,
    /// Patrol direction sign, `1` or `-1`.
    pub direction: i64,
    /// Walk-animation phase in milliseconds, below [`WALK_PHASE_MOD`].
    pub walk_timer: i64,
    /// `false` once the guard is dying; it is then inert.
    pub alive: bool,
    /// The fade-out countdown attached when the guard dies.
    pub fade: Option<EffectTimer>,
}

/// A well-formed guard: every quantity bounded, direction a sign, patrol
/// limits ordered, and a fade timer only in a well-formed state.
pub open spec fn guard_wf(g: Guard) -> bool {
    &&& vec_in_coord(g.pos)
    &&& -VEL_LIMIT <= g.vel.x <= VEL_LIMIT
    &&& -VEL_LIMIT <= g.vel.y <= VEL_LIMIT
    &&& half_wf(g.half)
    &&& 0 <= g.speed <= VEL_LIMIT
    &&& -GRAVITY_LIMIT <= g.gravity <= GRAVITY_LIMIT
    &&& -COORD_LIMIT <= g.left_limit <= g.right_limit <= COORD_LIMIT
    &&& (g.direction == 1 || g.direction == -1)
    &&& 0 <= g.walk_timer < WALK_PHASE_MOD
    &&& match g.fade {
        Option::None => true,
        Option::Some(t) => timer_wf(t),
    }
}

/// Every guard in the roster is well-formed.
pub open spec fn guards_wf(gs: Seq<Guard>) -> bool {
    forall|i: int| 0 <= i < gs.len() ==> guard_wf(#[trigger] gs[i])
}

/// The horizontal patrol velocity: speed times direction sign.
pub open spec fn guard_vel_x(g: Guard) -> int {
    g.speed * g.direction
}

/// The vertical velocity after integrating gravity over `dt`, saturated at
/// the velocity bound.
pub open spec fn guard_vel_y(g: Guard, dt: int) -> int {
    clamp_spec(g.vel.y + scale_by_dt_spec(g.gravity as int, dt), -VEL_LIMIT as int, VEL_LIMIT as int)
}

/// The displacement one tick asks for.
pub open spec fn guard_delta(g: Guard, dt: int) -> Vec2i {
    Vec2i {
        x: scale_by_dt_spec(guard_vel_x(g), dt) as i64,
        y: scale_by_dt_spec(guard_vel_y(g, dt), dt) as i64,
    }
}

/// One tick of an alive guard: integrate gravity, move with collision
/// resolution, zero the velocity on a hit axis, clamp the position into the
/// patrol limits (flipping direction at a bound; the y-coordinate
/// saturates at the world bound), and advance the walk animation.
pub open spec fn guard_step_spec(g: Guard, dt: int, solids: Seq<Solid>) -> Guard {
    let vx = guard_vel_x(g);
    let vy = guard_vel_y(g, dt);
    let delta = guard_delta(g, dt);
    let rx = resolve_x(g.pos, delta, g.half, solids);
    let ry = resolve_y(g.pos, delta, g.half, solids);
    let vx2 = if rx.1 {
        0int
    } else {
        vx
    };
    let vy2 = if ry.1 {
        0int
    } else {
        vy
    };
    let x2 = if rx.0 <= g.left_limit {
        g.left_limit as int
    } else if rx.0 >= g.right_limit {
        g.right_limit as int
    } else {
        rx.0
    };
    let dir2 = if rx.0 <= g.left_limit {
        1int
    } else if rx.0 >= g.right_limit {
        -1int
    } else {
        g.direction as int
    };
    let y2 = clamp_spec(ry.0, -COORD_LIMIT as int, COORD_LIMIT as int);
    Guard {
        pos: Vec2i { x: x2 as i64, y: y2 as i64 },
        vel: Vec2i { x: vx2 as i64, y: vy2 as i64 },
        direction: dir2 as i64,
        walk_timer: ((g.walk_timer + dt * GUARD_WALK_RATE) % (WALK_PHASE_MOD as int)) as i64,
        ..g
    }
}

/// The roster after one tick: alive guards step, dying guards are inert.
pub open spec fn guards_step_spec(gs: Seq<Guard>, dt: int, solids: Seq<Solid>) -> Seq<Guard> {
    gs.map_values(
        |g: Guard|
            if g.alive {
                guard_step_spec(g, dt, solids)
            } else {
                g
            },
    )
}

/// Advances every alive guard by one tick.
pub fn guard_system(guards: &mut Vec<Guard>, dt: i64, solids: &Vec<Solid>)
    requires
        guards_wf(old(guards)@),
        0 <= dt <= DT_LIMIT,
        solids_wf(solids@),
    ensures
        final(guards)@ == guards_step_spec(old(guards)@, dt as int, solids@),
        guards_wf(final(guards)@),
{
    let ghost orig = guards@;
    let mut i: usize = 0;
    while i < guards.len()
        invariant
            0 <= i <= guards.len(),
            guards@.len() == orig.len(),
            guards_wf(orig),
            0 <= dt <= DT_LIMIT,
            solids_wf(solids@),
            forall|j: int|
                i <= j < orig.len() ==> #[trigger] guards@[j] == orig[j],
            forall|j: int|
                0 <= j < i ==> #[trigger] guards@[j] == (if orig[j].alive {
                    guard_step_spec(orig[j], dt as int, solids@)
                } else {
                    orig[j]
                }),
            forall|j: int| 0 <= j < i ==> guard_wf(#[trigger] guards@[j]),
        decreases guards.len() - i,
    {
        let g = guards[i];
        if g.alive {
            let g2 = guard_step(g, dt, solids);
            guards.set(i, g2);
        }
        i = i + 1;
    }
    proof {
        assert(guards@ =~= guards_step_spec(orig, dt as int, solids@));
    }
}

/// One tick of a single alive guard.
fn guard_step(g: Guard, dt: i64, solids: &Vec<Solid>) -> (g2: Guard)
    requires
        guard_wf(g),
        g.alive,
        0 <= dt <= DT_LIMIT,
        solids_wf(solids@),
    ensures
        g2 == guard_step_spec(g, dt as int, solids@),
        guard_wf(g2),
{
    proof {
        assert(g.speed * g.direction == if g.direction == 1 {
            g.speed as int
        } else {
            -(g.speed as int)
        }) by (nonlinear_arith)
            requires
                g.direction == 1 || g.direction == -1,
        ;
    }
    let vx: i64 = g.speed * g.direction;
    let vy: i64 = clamp_i64(g.vel.y + scale_by_dt(g.gravity, dt), -VEL_LIMIT, VEL_LIMIT);
    let delta = Vec2i { x: scale_by_dt(vx, dt), y: scale_by_dt(vy, dt) };
    let mut pos = g.pos;
    let hit = crate::collide::move_with_collisions(&mut pos, delta, g.half, solids);
    let vx2: i64 = if hit.0 {
        0
    } else {
        vx
    };
    let vy2: i64 = if hit.1 {
        0
    } else {
        vy
    };
    let mut dir2 = g.direction;
    let mut x2 = pos.x;
    if pos.x <= g.left_limit {
        x2 = g.left_limit;
        dir2 = 1;
    } else if pos.x >= g.right_limit {
        x2 = g.right_limit;
        dir2 = -1;
    }
    let y2 = clamp_i64(pos.y, -COORD_LIMIT, COORD_LIMIT);
    let walk = (g.walk_timer + dt * GUARD_WALK_RATE) % WALK_PHASE_MOD;
    Guard {
        pos: Vec2i { x: x2, y: y2 },
        vel: Vec2i { x: vx2, y: vy2 },
        direction: dir2,
        walk_timer: walk,
        ..g
    }
}

/// A guard freshly built from its spawn description.
pub open spec fn fresh_guard_spec(s: GuardSpawn) -> Guard {
    Guard {
        pos: s.pos,
        vel: Vec2i { x: 0, y: 0 },
        half: Vec2i { x: ACTOR_HALF_X, y: ACTOR_HALF_Y },
        speed: GUARD_SPEED,
        gravity: GUARD_GRAVITY,
        left_limit: s.left,
        right_limit: s.right,
        direction: 1,
        walk_timer: 0,
        alive: true,
        fade: Option::None,
    }
}

/// Builds the full guard roster from the immutable spawn list.
pub fn spawn_guards(spawns: &Vec<GuardSpawn>) -> (guards: Vec<Guard>)
    requires
        spawns_wf(spawns@),
    ensures
        guards@.len() == spawns@.len(),
        forall|i: int| 0 <= i < spawns@.len() ==> #[trigger] guards@[i] == fresh_guard_spec(spawns@[i]),
        guards_wf(guards@),
{
    let mut guards: Vec<Guard> = Vec::new();
    let mut i: usize = 0;
    while i < spawns.len()
        invariant
            0 <= i <= spawns.len(),
            spawns_wf(spawns@),
            guards@.len() == i,
            forall|j: int| 0 <= j < i ==> #[trigger] guards@[j] == fresh_guard_spec(spawns@[j]),
        decreases spawns.len() - i,
    {
        let s = spawns[i];
        guards.push(
            Guard {
                pos: s.pos,
                vel: Vec2i { x: 0, y: 0 },
                half: Vec2i { x: ACTOR_HALF_X, y: ACTOR_HALF_Y },
                speed: GUARD_SPEED,
                gravity: GUARD_GRAVITY,
                left_limit: s.left,
                right_limit: s.right,
                direction: 1,
                walk_timer: 0,
                alive: true,
                fade: Option::None,
            },
        );
        i = i + 1;
    }
    guards
}

/// The patrol never leaves its limits: after a tick of an alive guard the
/// position is clamped into `[left_limit, right_limit]`, and the direction
/// flips exactly at a limit, never elsewhere.
pub proof fn lemma_guard_patrol_clamped(g: Guard, dt: int, solids: Seq<Solid>)
    requires
        guard_wf(g),
        g.alive,
        0 <= dt <= DT_LIMIT,
    ensures
        g.left_limit <= guard_step_spec(g, dt, solids).pos.x <= g.right_limit,
        guard_step_spec(g, dt, solids).direction != g.direction ==> (guard_step_spec(
            g,
            dt,
            solids,
        ).pos.x == g.left_limit || guard_step_spec(g, dt, solids).pos.x == g.right_limit),
        guard_step_spec(g, dt, solids).direction == (if resolve_x(
            g.pos,
            guard_delta(g, dt),
            g.half,
            solids,
        ).0 <= g.left_limit {
            1int
        } else if resolve_x(g.pos, guard_delta(g, dt), g.half, solids).0 >= g.right_limit {
            -1int
        } else {
            g.direction as int
        }),
{
}

} // verus!
