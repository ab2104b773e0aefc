//! The trigger system: stateless per-tick overlap checks that produce
//! one-shot gameplay events.
//!
//! Key pickup, checkpoint touch, princess rescue and death-by-contact are
//! all evaluated from box overlap with the player.  Death checks collapse
//! to a single boolean per tick, so overlapping two hazards at once raises
//! one respawn signal, never two.

use vstd::prelude::*;
use crate::collide::{Solid, solids_wf};
use crate::effects::{Door, DoorOpening, DOOR_OPEN_DURATION, DOOR_OPEN_OFFSET, door_wf};
use crate::geom::{
    Vec2i, Volume, aabb_intersects, half_wf, overlaps, overlaps_any, overlaps_any_volume,
    vec_in_coord, volumes_wf,
};
use crate::guard::{Guard, guards_wf};
use crate::player::{PlayerState, player_wf};
use crate::timer::EffectTimer;

verus! {

/// World-space x of the resume point a touched checkpoint stores — a
/// fixed spot on the open floor in front of the checkpoint, not the
/// checkpoint's own position.
pub const CHECKPOINT_RESUME_X: i64 = 990_000;

/// World-space y of the stored resume point.
pub const CHECKPOINT_RESUME_Y: i64 = 55_000;

/// Per-level global state: whether the key has been collected.
#[derive(Clone, Copy, PartialEq, Eq, Structural, Debug)]
pub struct SessionState {
    pub has_key: bool,
}

/// The player overlaps some alive guard.
pub open spec fn overlaps_any_alive_guard(pos: Vec2i, half: Vec2i, gs: Seq<Guard>) -> bool {
    exists|i: int|
        0 <= i < gs.len() && gs[i].alive && overlaps(pos, half, gs[i].pos, gs[i].half)
}

/// The solid list with every door blocker removed, order kept.
pub open spec fn without_blockers(s: Seq<Solid>) -> Seq<Solid>
    decreases s.len(),
{
    if s.len() == 0 {
        Seq::empty()
    } else {
        let rest = without_blockers(s.drop_last());
        if s.last().door_blocker {
            rest
        } else {
            rest.push(s.last())
        }
    }
}

/// The least index of a key the player overlaps, `-1` when there is
/// none.
pub open spec fn first_key_hit(pos: Vec2i, half: Vec2i, keys: Seq<Volume>) -> int
    decreases keys.len(),
{
    if keys.len() <= 0 {
        -1
    } else if overlaps(pos, half, keys[0].pos, keys[0].half) {
        0
    } else {
        let r = first_key_hit(pos, half, keys.subrange(1, keys.len() as int));
        if r < 0 {
            -1
        } else {
            r + 1
        }
    }
}

/// With no key overlapped, the first-hit index is `-1`.
proof fn lemma_first_key_hit_none(pos: Vec2i, half: Vec2i, keys: Seq<Volume>)
    requires
        forall|j: int|
            0 <= j < keys.len() ==> !#[trigger] overlaps(pos, half, keys[j].pos, keys[j].half),
    ensures
        first_key_hit(pos, half, keys) == -1,
    decreases keys.len(),
{
    if keys.len() > 0 {
        let rest = keys.subrange(1, keys.len() as int);
        assert forall|j: int|
            0 <= j < rest.len() implies !#[trigger] overlaps(
            pos,
            half,
            rest[j].pos,
            rest[j].half,
        ) by {
            assert(rest[j] == keys[j + 1]);
        }
        lemma_first_key_hit_none(pos, half, rest);
    }
}

/// A key overlapped at `i` with none before it makes `i` the first hit.
proof fn lemma_first_key_hit_at(pos: Vec2i, half: Vec2i, keys: Seq<Volume>, i: int)
    requires
        0 <= i < keys.len(),
        overlaps(pos, half, keys[i].pos, keys[i].half),
        forall|j: int| 0 <= j < i ==> !#[trigger] overlaps(pos, half, keys[j].pos, keys[j].half),
    ensures
        first_key_hit(pos, half, keys) == i,
    decreases i,
{
    if i > 0 {
        let rest = keys.subrange(1, keys.len() as int);
        assert(!overlaps(pos, half, keys[0].pos, keys[0].half));
        assert(rest[i - 1] == keys[i]);
        assert forall|j: int|
            0 <= j < i - 1 implies !#[trigger] overlaps(pos, half, rest[j].pos, rest[j].half) by {
            assert(rest[j] == keys[j + 1]);
        }
        lemma_first_key_hit_at(pos, half, rest, i - 1);
    }
}

/// Key pickup: if the key has not been collected yet and the player
/// overlaps a key, the first such key (in list order) disappears, the
/// session remembers the key, every door-blocking solid is removed and the
/// door-opening animation is armed.  A no-op once the key is held.
pub fn key_pickup_system(
    session: &mut SessionState,
    player_pos: Vec2i,
    player_half: Vec2i,
    keys: &mut Vec<Volume>,
    solids: &mut Vec<Solid>,
    door: &mut Door,
) -> (picked: bool)
    requires
        vec_in_coord(player_pos),
        half_wf(player_half),
        volumes_wf(old(keys)@),
        solids_wf(old(solids)@),
        door_wf(*old(door)),
        !old(session).has_key ==> vec_in_coord(old(door).pos) && old(door).opening is None,
    ensures
        old(session).has_key ==> *final(session) == *old(session) && final(keys)@ == old(keys)@
            && final(solids)@ == old(solids)@ && *final(door) == *old(door) && !picked,
        picked == (!old(session).has_key && first_key_hit(player_pos, player_half, old(keys)@)
            >= 0),
        !old(session).has_key ==> picked == overlaps_any(player_pos, player_half, old(keys)@),
        !old(session).has_key && !picked ==> *final(session) == *old(session) && final(keys)@
            == old(keys)@ && final(solids)@ == old(solids)@ && *final(door) == *old(door),
        picked ==> final(session).has_key && final(solids)@ == without_blockers(old(solids)@)
            && final(door).pos == old(door).pos && final(door).opening == Some(DoorOpening {
            start_y: old(door).pos.y,
            end_y: (old(door).pos.y + DOOR_OPEN_OFFSET) as i64,
            timer: EffectTimer { elapsed: 0, duration: DOOR_OPEN_DURATION },
        }),
        picked ==> final(keys)@ == old(keys)@.remove(
            first_key_hit(player_pos, player_half, old(keys)@),
        ),
        final(session).has_key == (old(session).has_key || picked),
        volumes_wf(final(keys)@),
        solids_wf(final(solids)@),
        door_wf(*final(door)),
    {
    if session.has_key {
        return false;
    }
    let ghost keys0 = keys@;
    let mut i: usize = 0;
    while i < keys.len()
        invariant
            0 <= i <= keys.len(),
            keys@ == keys0,
            keys0 == old(keys)@,
            volumes_wf(keys0),
            vec_in_coord(player_pos),
            half_wf(player_half),
            !session.has_key,
            *session == *old(session),
            *door == *old(door),
            solids@ == old(solids)@,
            solids_wf(solids@),
            door_wf(*door),
            vec_in_coord(door.pos),
            door.opening is None,
            forall|j: int|
                0 <= j < i ==> !#[trigger] overlaps(
                    player_pos,
                    player_half,
                    keys0[j].pos,
                    keys0[j].half,
                ),
        decreases keys.len() - i,
    {
        let k = keys[i];
        if aabb_intersects(player_pos, player_half, k.pos, k.half) {
            proof {
                lemma_first_key_hit_at(player_pos, player_half, keys0, i as int);
            }
            session.has_key = true;
            keys.remove(i);
            remove_blockers(solids);
            let start_y = door.pos.y;
            door.opening = Some(
                DoorOpening {
                    start_y,
                    end_y: start_y + DOOR_OPEN_OFFSET,
                    timer: EffectTimer { elapsed: 0, duration: DOOR_OPEN_DURATION },
                },
            );
            return true;
        }
        i = i + 1;
    }
    proof {
        lemma_first_key_hit_none(player_pos, player_half, keys0);
    }
    false
}

/// Rebuilds the solid list without its door blockers.
fn remove_blockers(solids: &mut Vec<Solid>)
    requires
        solids_wf(old(solids)@),
    ensures
        final(solids)@ == without_blockers(old(solids)@),
        solids_wf(final(solids)@),
{
    let ghost orig = solids@;
    let mut out: Vec<Solid> = Vec::new();
    let mut i: usize = 0;
    while i < solids.len()
        invariant
            0 <= i <= solids.len(),
            solids@ == orig,
            solids_wf(orig),
            out@ == without_blockers(orig.take(i as int)),
            forall|j: int| 0 <= j < out@.len() ==> crate::collide::solid_wf(#[trigger] out@[j]),
        decreases solids.len() - i,
    {
        let s = solids[i];
        proof {
            assert(orig.take(i as int + 1).drop_last() =~= orig.take(i as int));
            assert(orig.take(i as int + 1).last() == orig[i as int]);
        }
        if !s.door_blocker {
            out.push(s);
        }
        i = i + 1;
    }
    proof {
        assert(orig.take(orig.len() as int) =~= orig);
    }
    *solids = out;
}

/// Checkpoint touch: overlapping any checkpoint unconditionally overwrites
/// the player's stored respawn position with the fixed resume point.
pub fn checkpoint_system(player: &mut PlayerState, checkpoints: &Vec<Volume>)
    requires
        player_wf(*old(player)),
        volumes_wf(checkpoints@),
    ensures
        overlaps_any(old(player).pos, old(player).half, checkpoints@) ==> *final(player)
            == (PlayerState {
            respawn_position: Vec2i { x: CHECKPOINT_RESUME_X, y: CHECKPOINT_RESUME_Y },
            ..*old(player)
        }),
        !overlaps_any(old(player).pos, old(player).half, checkpoints@) ==> *final(player) == *old(
            player,
        ),
        player_wf(*final(player)),
{
    let mut i: usize = 0;
    let mut touched = false;
    while i < checkpoints.len()
        invariant
            0 <= i <= checkpoints.len(),
            player_wf(*player),
            volumes_wf(checkpoints@),
            touched == exists|j: int|
                0 <= j < i && overlaps(
                    player.pos,
                    player.half,
                    checkpoints@[j].pos,
                    checkpoints@[j].half,
                ),
            player.pos == old(player).pos,
            player.half == old(player).half,
            touched ==> *player == (PlayerState {
                respawn_position: Vec2i { x: CHECKPOINT_RESUME_X, y: CHECKPOINT_RESUME_Y },
                ..*old(player)
            }),
            !touched ==> *player == *old(player),
        decreases checkpoints.len() - i,
    {
        let c = checkpoints[i];
        if aabb_intersects(player.pos, player.half, c.pos, c.half) {
            player.respawn_position = Vec2i { x: CHECKPOINT_RESUME_X, y: CHECKPOINT_RESUME_Y };
            touched = true;
        }
        i = i + 1;
    }
}

/// Princess rescue: overlapping the princess wins the level.
pub fn princess_rescue_system(player_pos: Vec2i, player_half: Vec2i, princesses: &Vec<Volume>) -> (won:
    bool)
    requires
        vec_in_coord(player_pos),
        half_wf(player_half),
        volumes_wf(princesses@),
    ensures
        won == overlaps_any(player_pos, player_half, princesses@),
{
    overlaps_any_volume(player_pos, player_half, princesses)
}

/// Hazard contact: overlapping any hazard volume raises the respawn
/// signal — as one boolean, so simultaneous overlaps collapse to a single
/// signal.
pub fn hazard_system(player_pos: Vec2i, player_half: Vec2i, hazards: &Vec<Volume>) -> (deadly:
    bool)
    requires
        vec_in_coord(player_pos),
        half_wf(player_half),
        volumes_wf(hazards@),
    ensures
        deadly == overlaps_any(player_pos, player_half, hazards@),
{
    overlaps_any_volume(player_pos, player_half, hazards)
}

/// Guard contact: touching any alive guard raises the respawn signal.
pub fn guard_hit_system(player_pos: Vec2i, player_half: Vec2i, guards: &Vec<Guard>) -> (deadly:
    bool)
    requires
        vec_in_coord(player_pos),
        half_wf(player_half),
        guards_wf(guards@),
    ensures
        deadly == overlaps_any_alive_guard(player_pos, player_half, guards@),
{
    let mut i: usize = 0;
    while i < guards.len()
        invariant
            0 <= i <= guards.len(),
            vec_in_coord(player_pos),
            half_wf(player_half),
            guards_wf(guards@),
            forall|j: int|
                0 <= j < i ==> !(guards@[j].alive && #[trigger] overlaps(
                    player_pos,
                    player_half,
                    guards@[j].pos,
                    guards@[j].half,
                )),
        decreases guards.len() - i,
    {
        let g = guards[i];
        if g.alive && aabb_intersects(player_pos, player_half, g.pos, g.half) {
            return true;
        }
        i = i + 1;
    }
    false
}

} // verus!
