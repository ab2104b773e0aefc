//! The player controller: a kinematic state machine over ground, air and
//! ladder, with an orthogonal attacking flag.
//!
//! Per tick: the ladder state is re-evaluated from overlap alone, attack
//! countdowns tick, a pressed attack starts a swing when off cooldown, the
//! velocity is driven from input (with coyote time and jump buffering
//! deciding whether a jump is honored), gravity integrates unless on a
//! ladder, and the resulting displacement goes through the collision
//! resolver.  A downward collision refreshes the coyote window; facing only
//! changes while there is horizontal input.

use vstd::prelude::*;
use crate::collide::{Solid, move_with_collisions, resolve_x, resolve_y, solids_wf};
use crate::combat::{hit_guards_spec, try_hit_guard};
use crate::geom::{
    Vec2i, Volume, half_wf, overlaps_any, overlaps_any_volume, vec_in_coord, volumes_wf,
};
use crate::guard::{Guard, WALK_PHASE_MOD, guards_wf};
use crate::input::{InputState, climb_dir_spec, climb_input, move_dir_spec, move_input};
use crate::units::{
    abs_i, clamp_i64, clamp_spec, count_down, count_down_spec, scale_by_dt, scale_by_dt_spec,
    COORD_LIMIT, DT_LIMIT, GRAVITY_LIMIT, TIMER_LIMIT, VEL_LIMIT,
};

verus! {

/// Cooldown started by a swing, in milliseconds; no new swing can start
/// while it runs.
pub const ATTACK_COOLDOWN: i64 = 350;

/// How long a swing's hitbox stays live, in milliseconds.
pub const ATTACK_ACTIVE: i64 = 180;

/// How fast the player's walk animation advances relative to real time.
pub const PLAYER_WALK_RATE: i64 = 8;

/// The walk animation runs only while moving faster than this, in
/// milli-units per second.
pub const WALK_MIN_SPEED: i64 = 1_000;

/// The player's full kinematic and controller state.
#[derive(Clone, Copy, PartialEq, Eq, Structural, Debug)]
pub struct PlayerState {
    pub pos: Vec2i,
    pub vel: Vec2i,
    pub half: Vec2i,
    /// Ground speed, milli-units per second.
    pub speed: i64,
    /// Upward impulse a jump applies.
    pub jump_velocity: i64,
    /// Gravity acceleration, negative is downward.
    pub gravity: i64,
    /// The full coyote-time budget.
    pub coyote_time: i64,
    /// The full jump-buffer budget.
    pub jump_buffer: i64,
    /// Climb speed while on a ladder.
    pub climb_speed: i64,
    /// Live coyote countdown; positive means a jump is still honored.
    pub coyote_timer: i64,
    /// Live jump-buffer countdown, refreshed by a jump press.
    pub jump_buffer_timer: i64,
    /// Re-evaluated every tick purely from ladder overlap.
    pub on_ladder: bool,
    /// Where death returns the player to.
    pub respawn_position: Vec2i,
    /// Walk-animation phase in milliseconds, below [`WALK_PHASE_MOD`].
    pub walk_timer: i64,
    /// Swing cooldown countdown.
    pub attack_cooldown: i64,
    /// Live swing countdown; positive keeps the melee hitbox live.
    pub attack_active: i64,
    /// Facing sign, `1` or `-1`; kept when input is released.
    pub facing: i64,
}

/// One-shot signals a tick of the player controller emits.
#[derive(Clone, Copy, PartialEq, Eq, Structural, Debug)]
pub struct PlayerEvents {
    /// A jump was applied this tick (a jump sound is owed).
    pub jumped: bool,
    /// A swing started this tick.
    pub attack_started: bool,
}

/// A well-formed player: every quantity bounded, countdowns inside their
/// budgets, facing a sign.
pub open spec fn player_wf(p: PlayerState) -> bool {
    &&& vec_in_coord(p.pos)
    &&& vec_in_coord(p.respawn_position)
    &&& -VEL_LIMIT <= p.vel.x <= VEL_LIMIT
    &&& -VEL_LIMIT <= p.vel.y <= VEL_LIMIT
    &&& half_wf(p.half)
    &&& 0 <= p.speed <= VEL_LIMIT
    &&& 0 <= p.jump_velocity <= VEL_LIMIT
    &&& 0 <= p.climb_speed <= VEL_LIMIT
    &&& -GRAVITY_LIMIT <= p.gravity <= GRAVITY_LIMIT
    &&& 0 <= p.coyote_timer <= p.coyote_time <= TIMER_LIMIT
    &&& 0 <= p.jump_buffer_timer <= p.jump_buffer <= TIMER_LIMIT
    &&& 0 <= p.attack_cooldown <= TIMER_LIMIT
    &&& 0 <= p.attack_active <= TIMER_LIMIT
    &&& (p.facing == 1 || p.facing == -1)
    &&& 0 <= p.walk_timer < WALK_PHASE_MOD
}

/// The coyote countdown at jump-evaluation time: ticked down by `dt`.
pub open spec fn coyote_at_eval(p: PlayerState, dt: int) -> int {
    count_down_spec(p.coyote_timer as int, dt)
}

/// The jump-buffer countdown at jump-evaluation time: refreshed to its
/// full budget by a press this tick, ticked down otherwise.
pub open spec fn buffer_at_eval(p: PlayerState, inp: InputState, dt: int) -> int {
    if inp.jump_pressed {
        p.jump_buffer as int
    } else {
        count_down_spec(p.jump_buffer_timer as int, dt)
    }
}

/// A (non-ladder) jump is honored exactly when both grace windows are
/// open at evaluation time.
pub open spec fn jump_occurs(p: PlayerState, inp: InputState, dt: int) -> bool {
    buffer_at_eval(p, inp, dt) > 0 && coyote_at_eval(p, dt) > 0
}

/// A swing starts this tick: attack pressed while the ticked-down
/// cooldown reads zero.
pub open spec fn attack_starts(p: PlayerState, inp: InputState, dt: int) -> bool {
    inp.attack_pressed && count_down_spec(p.attack_cooldown as int, dt) == 0
}

/// The controller phase before movement: ladder state from overlap,
/// attack countdowns, velocity from input, jump evaluation, gravity.
/// Returns the intermediate state and the tick's events.
pub open spec fn player_pre_move(
    p: PlayerState,
    inp: InputState,
    dt: int,
    ladders: Seq<Volume>,
) -> (PlayerState, PlayerEvents) {
    let on_ladder = overlaps_any(p.pos, p.half, ladders);
    let cd = count_down_spec(p.attack_cooldown as int, dt);
    let aa = count_down_spec(p.attack_active as int, dt);
    let started = inp.attack_pressed && cd == 0;
    let cd2 = if started {
        ATTACK_COOLDOWN as int
    } else {
        cd
    };
    let aa2 = if started {
        ATTACK_ACTIVE as int
    } else {
        aa
    };
    let on_ground = p.coyote_timer > 0;
    let dir = move_dir_spec(inp);
    let max_speed = if inp.down && on_ground {
        (p.speed * 2) / 5
    } else {
        p.speed as int
    };
    if on_ladder {
        let vx = dir * ((p.speed * 3) / 5);
        if inp.jump_pressed {
            (
                PlayerState {
                    on_ladder: false,
                    vel: Vec2i { x: vx as i64, y: p.jump_velocity },
                    attack_cooldown: cd2 as i64,
                    attack_active: aa2 as i64,
                    ..p
                },
                PlayerEvents { jumped: true, attack_started: started },
            )
        } else {
            (
                PlayerState {
                    on_ladder: true,
                    vel: Vec2i { x: vx as i64, y: (climb_dir_spec(inp) * p.climb_speed) as i64 },
                    attack_cooldown: cd2 as i64,
                    attack_active: aa2 as i64,
                    ..p
                },
                PlayerEvents { jumped: false, attack_started: started },
            )
        }
    } else {
        let vx = dir * max_speed;
        let coyote1 = coyote_at_eval(p, dt);
        let jbt1 = buffer_at_eval(p, inp, dt);
        if jbt1 > 0 && coyote1 > 0 {
            (
                PlayerState {
                    on_ladder: false,
                    vel: Vec2i {
                        x: vx as i64,
                        y: clamp_spec(
                            p.jump_velocity + scale_by_dt_spec(p.gravity as int, dt),
                            -VEL_LIMIT as int,
                            VEL_LIMIT as int,
                        ) as i64,
                    },
                    coyote_timer: 0,
                    jump_buffer_timer: 0,
                    attack_cooldown: cd2 as i64,
                    attack_active: aa2 as i64,
                    ..p
                },
                PlayerEvents { jumped: true, attack_started: started },
            )
        } else {
            (
                PlayerState {
                    on_ladder: false,
                    vel: Vec2i {
                        x: vx as i64,
                        y: clamp_spec(
                            p.vel.y + scale_by_dt_spec(p.gravity as int, dt),
                            -VEL_LIMIT as int,
                            VEL_LIMIT as int,
                        ) as i64,
                    },
                    coyote_timer: coyote1 as i64,
                    jump_buffer_timer: jbt1 as i64,
                    attack_cooldown: cd2 as i64,
                    attack_active: aa2 as i64,
                    ..p
                },
                PlayerEvents { jumped: false, attack_started: started },
            )
        }
    }
}

/// The displacement the intermediate state asks for this tick.
pub open spec fn player_delta(q: PlayerState, dt: int) -> Vec2i {
    Vec2i {
        x: scale_by_dt_spec(q.vel.x as int, dt) as i64,
        y: scale_by_dt_spec(q.vel.y as int, dt) as i64,
    }
}

/// The movement phase: resolve the displacement, zero the velocity on hit
/// axes, refresh the coyote window on a downward collision, saturate the
/// position at the world bound, store a requested respawn point, update
/// facing and the walk animation.
pub open spec fn player_post_move(
    q: PlayerState,
    inp: InputState,
    dt: int,
    solids: Seq<Solid>,
) -> PlayerState {
    let delta = player_delta(q, dt);
    let rx = resolve_x(q.pos, delta, q.half, solids);
    let ry = resolve_y(q.pos, delta, q.half, solids);
    let vx2 = if rx.1 {
        0int
    } else {
        q.vel.x as int
    };
    let vy2 = if ry.1 {
        0int
    } else {
        q.vel.y as int
    };
    let on_floor = ry.1 && delta.y < 0;
    let coyote2 = if on_floor {
        q.coyote_time as int
    } else {
        q.coyote_timer as int
    };
    let newpos = Vec2i {
        x: clamp_spec(rx.0, -COORD_LIMIT as int, COORD_LIMIT as int) as i64,
        y: clamp_spec(ry.0, -COORD_LIMIT as int, COORD_LIMIT as int) as i64,
    };
    let dir = move_dir_spec(inp);
    let moving = abs_i(vx2) > WALK_MIN_SPEED && on_floor && !q.on_ladder;
    PlayerState {
        pos: newpos,
        vel: Vec2i { x: vx2 as i64, y: vy2 as i64 },
        coyote_timer: coyote2 as i64,
        respawn_position: if inp.mark_respawn_pressed {
            newpos
        } else {
            q.respawn_position
        },
        facing: if dir != 0 {
            dir as i64
        } else {
            q.facing
        },
        walk_timer: if moving {
            ((q.walk_timer + dt * PLAYER_WALK_RATE) % (WALK_PHASE_MOD as int)) as i64
        } else {
            q.walk_timer
        },
        ..q
    }
}

/// One full tick of the player controller: the pre-move phase followed by
/// the movement phase.
pub open spec fn player_step_spec(
    p: PlayerState,
    inp: InputState,
    dt: int,
    solids: Seq<Solid>,
    ladders: Seq<Volume>,
) -> (PlayerState, PlayerEvents) {
    let pre = player_pre_move(p, inp, dt, ladders);
    (player_post_move(pre.0, inp, dt, solids), pre.1)
}

/// Whether this tick ends with a downward collision (a landing), which
/// refreshes the coyote window.
pub open spec fn player_lands(
    p: PlayerState,
    inp: InputState,
    dt: int,
    solids: Seq<Solid>,
    ladders: Seq<Volume>,
) -> bool {
    let q = player_pre_move(p, inp, dt, ladders).0;
    let delta = player_delta(q, dt);
    resolve_y(q.pos, delta, q.half, solids).1 && delta.y < 0
}

/// The guard roster after the player's tick: a swing that starts is
/// evaluated at the pre-move position and facing, and a still-live swing
/// is re-evaluated at the post-move position and facing, so a guard
/// walking into the arc mid-swing is caught.
pub open spec fn player_guards_spec(
    p: PlayerState,
    inp: InputState,
    dt: int,
    solids: Seq<Solid>,
    ladders: Seq<Volume>,
    gs: Seq<Guard>,
) -> Seq<Guard> {
    let g1 = if attack_starts(p, inp, dt) {
        hit_guards_spec(p.pos, p.facing as int, gs)
    } else {
        gs
    };
    let st = player_step_spec(p, inp, dt, solids, ladders).0;
    if st.attack_active > 0 {
        hit_guards_spec(st.pos, st.facing as int, g1)
    } else {
        g1
    }
}

/// One tick of the player controller, including the melee evaluation
/// against the guards.
#[verifier::rlimit(100)]
pub fn player_system(
    p: &mut PlayerState,
    guards: &mut Vec<Guard>,
    inp: InputState,
    dt: i64,
    solids: &Vec<Solid>,
    ladders: &Vec<Volume>,
) -> (ev: PlayerEvents)
    requires
        player_wf(*old(p)),
        guards_wf(old(guards)@),
        0 <= dt <= DT_LIMIT,
        solids_wf(solids@),
        volumes_wf(ladders@),
    ensures
        *final(p) == player_step_spec(*old(p), inp, dt as int, solids@, ladders@).0,
        ev == player_step_spec(*old(p), inp, dt as int, solids@, ladders@).1,
        final(guards)@ == player_guards_spec(*old(p), inp, dt as int, solids@, ladders@, old(guards)@),
        player_wf(*final(p)),
        guards_wf(final(guards)@),
{
    let ghost p0 = *p;
    let on_ladder = overlaps_any_volume(p.pos, p.half, ladders);
    p.on_ladder = on_ladder;
    p.attack_cooldown = count_down(p.attack_cooldown, dt);
    p.attack_active = count_down(p.attack_active, dt);
    let on_ground = p.coyote_timer > 0;
    let dir = move_input(&inp);
    let crouching = inp.down && on_ground;
    let max_speed: i64 = if crouching {
        (((p.speed as u64) * 2) / 5) as i64
    } else {
        p.speed
    };
    let mut started = false;
    if inp.attack_pressed && p.attack_cooldown == 0 {
        started = true;
        p.attack_cooldown = ATTACK_COOLDOWN;
        p.attack_active = ATTACK_ACTIVE;
        try_hit_guard(p.pos, p.facing, guards);
    }
    let mut jumped = false;
    proof {
        assert(forall|d: int, m: int|
            (-1 <= d <= 1 && 0 <= m <= VEL_LIMIT) ==> -VEL_LIMIT <= #[trigger] (d * m)
                <= VEL_LIMIT) by (nonlinear_arith);
    }
    if p.on_ladder {
        let climb = climb_input(&inp);
        let ladder_speed: i64 = (((p.speed as u64) * 3) / 5) as i64;
        p.vel = Vec2i { x: dir * ladder_speed, y: climb * p.climb_speed };
        if inp.jump_pressed {
            p.on_ladder = false;
            p.vel = Vec2i { x: p.vel.x, y: p.jump_velocity };
            jumped = true;
        }
    } else {
        p.vel = Vec2i { x: dir * max_speed, y: p.vel.y };
        p.coyote_timer = count_down(p.coyote_timer, dt);
        if inp.jump_pressed {
            p.jump_buffer_timer = p.jump_buffer;
        } else {
            p.jump_buffer_timer = count_down(p.jump_buffer_timer, dt);
        }
        if p.jump_buffer_timer > 0 && p.coyote_timer > 0 {
            p.vel = Vec2i { x: p.vel.x, y: p.jump_velocity };
            p.jump_buffer_timer = 0;
            p.coyote_timer = 0;
            jumped = true;
        }
        p.vel = Vec2i {
            x: p.vel.x,
            y: clamp_i64(p.vel.y + scale_by_dt(p.gravity, dt), -VEL_LIMIT, VEL_LIMIT),
        };
    }
    let ghost q = player_pre_move(p0, inp, dt as int, ladders@).0;
    proof {
        assert(*p == q);
    }
    let delta = Vec2i { x: scale_by_dt(p.vel.x, dt), y: scale_by_dt(p.vel.y, dt) };
    let mut newpos = p.pos;
    let hit = move_with_collisions(&mut newpos, delta, p.half, solids);
    if hit.0 {
        p.vel = Vec2i { x: 0, y: p.vel.y };
    }
    if hit.1 {
        p.vel = Vec2i { x: p.vel.x, y: 0 };
    }
    let on_floor = hit.1 && delta.y < 0;
    if on_floor {
        p.coyote_timer = p.coyote_time;
    }
    p.pos = Vec2i {
        x: clamp_i64(newpos.x, -COORD_LIMIT, COORD_LIMIT),
        y: clamp_i64(newpos.y, -COORD_LIMIT, COORD_LIMIT),
    };
    if inp.mark_respawn_pressed {
        p.respawn_position = p.pos;
    }
    if dir != 0 {
        p.facing = dir;
    }
    let moving = (p.vel.x > WALK_MIN_SPEED || p.vel.x < -WALK_MIN_SPEED) && on_floor
        && !p.on_ladder;
    if moving {
        p.walk_timer = (p.walk_timer + dt * PLAYER_WALK_RATE) % WALK_PHASE_MOD;
    }
    proof {
        assert(*p == player_post_move(q, inp, dt as int, solids@));
    }
    if p.attack_active > 0 {
        try_hit_guard(p.pos, p.facing, guards);
    }
    PlayerEvents { jumped, attack_started: started }
}

/// The coyote window counts down: on a tick that starts with an open
/// coyote window, off the ladder, with no jump pressed or buffered and no
/// landing, the coyote countdown drops by exactly `dt`, floored at zero.
/// (A landing refreshes it to the full budget instead, and on a ladder it
/// is left untouched — those ticks are excluded here.)
pub proof fn lemma_coyote_counts_down(
    p: PlayerState,
    inp: InputState,
    dt: int,
    solids: Seq<Solid>,
    ladders: Seq<Volume>,
)
    requires
        player_wf(p),
        0 <= dt <= DT_LIMIT,
        !overlaps_any(p.pos, p.half, ladders),
        !inp.jump_pressed,
        p.jump_buffer_timer == 0,
        p.coyote_timer > 0,
        !player_lands(p, inp, dt, solids, ladders),
    ensures
        player_step_spec(p, inp, dt, solids, ladders).0.coyote_timer == count_down_spec(
            p.coyote_timer as int,
            dt,
        ),
{
    let q = player_pre_move(p, inp, dt, ladders).0;
    assert(buffer_at_eval(p, inp, dt) == 0);
    assert(q.coyote_timer == count_down_spec(p.coyote_timer as int, dt));
}

/// A jump is honored exactly when both the jump buffer and the coyote
/// window are open at evaluation time, and a jump consumes both: right
/// after it they are exactly zero.  (Stated off the ladder, and for ticks
/// on which the jump impulse dominates the gravity integrated over the
/// tick, so that the jump cannot land in the very tick it starts.)
pub proof fn lemma_jump_iff(
    p: PlayerState,
    inp: InputState,
    dt: int,
    solids: Seq<Solid>,
    ladders: Seq<Volume>,
)
    requires
        player_wf(p),
        0 <= dt <= DT_LIMIT,
        !overlaps_any(p.pos, p.half, ladders),
        p.jump_velocity + scale_by_dt_spec(p.gravity as int, dt) >= 0,
    ensures
        player_step_spec(p, inp, dt, solids, ladders).1.jumped == jump_occurs(p, inp, dt),
        jump_occurs(p, inp, dt) ==> player_step_spec(p, inp, dt, solids, ladders).0.coyote_timer
            == 0,
        jump_occurs(p, inp, dt) ==> player_step_spec(
            p,
            inp,
            dt,
            solids,
            ladders,
        ).0.jump_buffer_timer == 0,
{
    let q = player_pre_move(p, inp, dt, ladders).0;
    if jump_occurs(p, inp, dt) {
        assert(q.coyote_timer == 0 && q.jump_buffer_timer == 0);
        assert(q.vel.y >= 0);
        let delta = player_delta(q, dt);
        assert(0 <= q.vel.y * dt <= 1_000_000_000_000int) by (nonlinear_arith)
            requires
                0 <= q.vel.y <= VEL_LIMIT,
                0 <= dt <= DT_LIMIT,
        ;
        assert(0 <= (q.vel.y * dt) / 1000 <= 1_000_000_000int) by (nonlinear_arith)
            requires
                0 <= q.vel.y * dt <= 1_000_000_000_000int,
        ;
        assert(delta.y >= 0);
    }
}

} // verus!
