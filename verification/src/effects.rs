//! Effect timers: the door-opening interpolation and the fade-out that
//! removes dying guards.
//!
//! Both are driven by [`EffectTimer`] and are monotonic.  The door slides
//! linearly from its closed to its open offset and then stays open for
//! good; a fading guard's opacity falls linearly from full to zero and the
//! guard is removed when the timer finishes.

use vstd::prelude::*;
use crate::collide::RESOLVED_BOUND;
use crate::geom::Vec2i;
use crate::guard::{Guard, guard_wf, guards_wf};
use crate::timer::{EffectTimer, timer_advance_spec, timer_progress_spec, timer_wf};
use crate::units::DT_LIMIT;

verus! {

/// How far up the door slides when it opens, in milli-units.
pub const DOOR_OPEN_OFFSET: i64 = 26_000;

/// How long the door-opening animation runs, in milliseconds.
pub const DOOR_OPEN_DURATION: i64 = 350;

/// The in-flight door-opening animation.
#[derive(Clone, Copy, PartialEq, Eq, Structural, Debug)]
pub struct DoorOpening {
    pub start_y: i64,
    pub end_y: i64,
    pub timer: EffectTimer,
}

/// A well-formed animation: ordered bounded offsets and a live timer.
pub open spec fn opening_wf(o: DoorOpening) -> bool {
    &&& -RESOLVED_BOUND <= o.start_y <= o.end_y <= RESOLVED_BOUND
    &&& timer_wf(o.timer)
}

/// The level's door: a position and, while it is opening, an animation.
#[derive(Clone, Copy, PartialEq, Eq, Structural, Debug)]
pub struct Door {
    pub pos: Vec2i,
    pub opening: Option<DoorOpening>,
}

/// A well-formed door: bounded position, well-formed animation if any.
pub open spec fn door_wf(d: Door) -> bool {
    &&& -RESOLVED_BOUND <= d.pos.x <= RESOLVED_BOUND
    &&& -RESOLVED_BOUND <= d.pos.y <= RESOLVED_BOUND
    &&& match d.opening {
        Option::None => true,
        Option::Some(o) => opening_wf(o),
    }
}

/// The door's vertical position when the animation's timer reads `t`:
/// linear interpolation from the closed to the open offset.
pub open spec fn door_y_at(o: DoorOpening, t: EffectTimer) -> int {
    o.start_y + ((o.end_y - o.start_y) * timer_progress_spec(t)) / 1000
}

/// The door after `dt` elapses: the animation advances and moves the door;
/// a finished animation is dropped, leaving the door at its open offset.
pub open spec fn door_step_spec(d: Door, dt: int) -> Door {
    match d.opening {
        Option::None => d,
        Option::Some(o) => {
            let t2 = timer_advance_spec(o.timer, dt);
            Door {
                pos: Vec2i { x: d.pos.x, y: door_y_at(o, t2) as i64 },
                opening: if t2.elapsed == t2.duration {
                    Option::None
                } else {
                    Option::Some(DoorOpening { timer: t2, ..o })
                },
            }
        },
    }
}

/// Advances the door-opening animation, if one is in flight.
pub fn door_open_system(door: &mut Door, dt: i64)
    requires
        door_wf(*old(door)),
        0 <= dt <= DT_LIMIT,
    ensures
        *final(door) == door_step_spec(*old(door), dt as int),
        door_wf(*final(door)),
        match old(door).opening {
            Option::None => *final(door) == *old(door),
            Option::Some(o) => final(door).opening is None ==> final(door).pos.y == o.end_y,
        },
{
    match door.opening {
        Option::None => {
        },
        Option::Some(o) => {
            let mut t = o.timer;
            t.advance(dt);
            let progress = t.progress_permille();
            let span_mu: u64 = (o.end_y - o.start_y) as u64;
            proof {
                assert(0 <= span_mu * progress <= span_mu * 1000 <= 4_200_000_000_000int)
                    by (nonlinear_arith)
                    requires
                        0 <= span_mu <= 4_200_000_000u64,
                        0 <= progress <= 1000,
                ;
                assert(0 <= (span_mu * progress) / 1000 <= span_mu) by (nonlinear_arith)
                    requires
                        0 <= span_mu * progress <= span_mu * 1000,
                        0 <= span_mu,
                ;
                assert(progress == 1000 ==> (span_mu * progress) / 1000 == span_mu)
                    by (nonlinear_arith)
                    requires
                        0 <= span_mu,
                ;
            }
            let offset: i64 = ((span_mu * (progress as u64)) / 1000) as i64;
            let y = o.start_y + offset;
            let finished = t.finished();
            door.pos = Vec2i { x: door.pos.x, y };
            door.opening = if finished {
                Option::None
            } else {
                Option::Some(DoorOpening { start_y: o.start_y, end_y: o.end_y, timer: t })
            };
        },
    }
}

/// The guard after its fade timer, if any, advances by `dt`.
pub open spec fn fade_step_guard(g: Guard, dt: int) -> Guard {
    match g.fade {
        Option::None => g,
        Option::Some(t) => Guard { fade: Option::Some(timer_advance_spec(t, dt)), ..g },
    }
}

/// Whether the guard survives this tick: it does unless its fade timer
/// finishes.
pub open spec fn fade_keeps(g: Guard, dt: int) -> bool {
    match g.fade {
        Option::None => true,
        Option::Some(t) => timer_advance_spec(t, dt).elapsed != t.duration,
    }
}

/// The roster after fade timers advance: finished guards are removed, the
/// rest keep their order.
pub open spec fn fade_pass_spec(gs: Seq<Guard>, dt: int) -> Seq<Guard>
    decreases gs.len(),
{
    if gs.len() == 0 {
        Seq::empty()
    } else {
        let rest = fade_pass_spec(gs.drop_last(), dt);
        if fade_keeps(gs.last(), dt) {
            rest.push(fade_step_guard(gs.last(), dt))
        } else {
            rest
        }
    }
}

/// Advances every fade-out timer and removes the guards whose fade has
/// finished.
pub fn fade_out_system(guards: &mut Vec<Guard>, dt: i64)
    requires
        guards_wf(old(guards)@),
        0 <= dt <= DT_LIMIT,
    ensures
        final(guards)@ == fade_pass_spec(old(guards)@, dt as int),
        guards_wf(final(guards)@),
{
    let ghost orig = guards@;
    let mut out: Vec<Guard> = Vec::new();
    let mut i: usize = 0;
    while i < guards.len()
        invariant
            0 <= i <= guards.len(),
            guards@ == orig,
            guards_wf(orig),
            0 <= dt <= DT_LIMIT,
            out@ == fade_pass_spec(orig.take(i as int), dt as int),
            forall|j: int| 0 <= j < out@.len() ==> guard_wf(#[trigger] out@[j]),
        decreases guards.len() - i,
    {
        let g = guards[i];
        proof {
            assert(orig.take(i as int + 1).drop_last() =~= orig.take(i as int));
            assert(orig.take(i as int + 1).last() == orig[i as int]);
        }
        match g.fade {
            Option::None => {
                out.push(g);
            },
            Option::Some(t0) => {
                let mut t = t0;
                t.advance(dt);
                if !t.finished() {
                    out.push(Guard { fade: Option::Some(t), ..g });
                }
            },
        }
        i = i + 1;
    }
    proof {
        assert(orig.take(orig.len() as int) =~= orig);
    }
    *guards = out;
}

/// The opacity of a guard in permille: full while alive, falling linearly
/// to zero while its fade-out runs.
pub fn fade_alpha_permille(g: &Guard) -> (alpha: i64)
    requires
        guard_wf(*g),
    ensures
        alpha == (match g.fade {
            Option::None => 1000int,
            Option::Some(t) => 1000 - timer_progress_spec(t),
        }),
        0 <= alpha <= 1000,
{
    match g.fade {
        Option::None => 1000,
        Option::Some(t) => 1000 - t.progress_permille(),
    }
}

} // verus!
