//! The respawn protocol: consuming the one respawn signal of a tick.
//!
//! The player returns to exactly the stored respawn position with velocity
//! zeroed and ladder/attack state cleared, and the whole guard roster is
//! rebuilt from the immutable spawn list — guards keep no patrol state
//! across a death.

use vstd::prelude::*;
use crate::geom::Vec2i;
use crate::guard::{
    Guard, GuardSpawn, fresh_guard_spec, guards_wf, spawn_guards, spawns_wf,
};
use crate::player::{PlayerState, player_wf};

verus! {

/// The player state after a respawn: back at the stored respawn position,
/// stopped, off the ladder, coyote window full, buffers and attack state
/// cleared.
pub open spec fn respawned_player_spec(p: PlayerState) -> PlayerState {
    PlayerState {
        pos: p.respawn_position,
        vel: Vec2i { x: 0, y: 0 },
        on_ladder: false,
        coyote_timer: p.coyote_time,
        jump_buffer_timer: 0,
        attack_active: 0,
        attack_cooldown: 0,
        ..p
    }
}

/// Consumes a pending respawn signal, if any: resets the player to the
/// stored respawn position and rebuilds the guard roster from the spawn
/// list.  Signals raised several times in one tick arrive here collapsed
/// into the one boolean.  Afterwards the guard count equals the spawn-list
/// length.
pub fn respawn_system(
    pending: bool,
    player: &mut PlayerState,
    guards: &mut Vec<Guard>,
    spawns: &Vec<GuardSpawn>,
)
    requires
        player_wf(*old(player)),
        guards_wf(old(guards)@),
        spawns_wf(spawns@),
    ensures
        !pending ==> *final(player) == *old(player) && final(guards)@ == old(guards)@,
        pending ==> *final(player) == respawned_player_spec(*old(player)),
        pending ==> final(player).pos == old(player).respawn_position,
        pending ==> final(guards)@.len() == spawns@.len(),
        pending ==> forall|i: int|
            0 <= i < spawns@.len() ==> #[trigger] final(guards)@[i] == fresh_guard_spec(
                spawns@[i],
            ),
        player_wf(*final(player)),
        guards_wf(final(guards)@),
{
    if !pending {
        return ;
    }
    player.pos = player.respawn_position;
    player.vel = Vec2i { x: 0, y: 0 };
    player.on_ladder = false;
    player.coyote_timer = player.coyote_time;
    player.jump_buffer_timer = 0;
    player.attack_active = 0;
    player.attack_cooldown = 0;
    *guards = spawn_guards(spawns);
}

} // verus!
