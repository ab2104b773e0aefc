//! The whole simulation: one `World` record and one ordered tick.
//!
//! A tick runs the components to completion in a fixed order — player
//! controller (with the melee evaluation), guard patrol, key pickup,
//! checkpoint, princess, hazard and guard contact, respawn, door and fade
//! timers — so a death detected this tick is resolved by the respawn
//! protocol in the same tick, never deferred.

use vstd::prelude::*;
use crate::collide::{Solid, solids_wf};
use crate::effects::{
    Door, DoorOpening, DOOR_OPEN_DURATION, DOOR_OPEN_OFFSET, door_open_system, door_step_spec,
    door_wf, fade_out_system, fade_pass_spec,
};
use crate::geom::{Vec2i, Volume, overlaps_any, vec_in_coord, volumes_wf};
use crate::guard::{
    Guard, GuardSpawn, fresh_guard_spec, guard_system, guards_step_spec, guards_wf, spawn_guards,
    spawns_wf,
};
use crate::input::InputState;
use crate::level::{
    setup, spawn_checkpoint, spawn_door, spawn_key, spawn_kill_zone, spawn_ladders,
    spawn_platforms, spawn_player, spawn_princess, spawn_spikes,
};
use crate::player::{
    PlayerState, player_guards_spec, player_step_spec, player_system, player_wf,
};
use crate::respawn::{respawn_system, respawned_player_spec};
use crate::timer::EffectTimer;
use crate::triggers::{
    CHECKPOINT_RESUME_X, CHECKPOINT_RESUME_Y, SessionState, checkpoint_system, first_key_hit,
    guard_hit_system, hazard_system, key_pickup_system, overlaps_any_alive_guard,
    princess_rescue_system, without_blockers,
};
use crate::units::DT_LIMIT;

verus! {

/// All simulation state of one level session.
pub struct World {
    pub solids: Vec<Solid>,
    pub ladders: Vec<Volume>,
    pub hazards: Vec<Volume>,
    pub keys: Vec<Volume>,
    pub checkpoints: Vec<Volume>,
    pub princesses: Vec<Volume>,
    pub door: Door,
    pub player: PlayerState,
    pub guards: Vec<Guard>,
    pub spawns: Vec<GuardSpawn>,
    pub session: SessionState,
}

/// The one-shot signals one tick emits for the host: sounds to play and
/// state transitions to react to.
#[derive(Clone, Copy, PartialEq, Eq, Structural, Debug)]
pub struct TickEvents {
    /// A jump was applied (jump sound).
    pub jumped: bool,
    /// A swing started.
    pub attack_started: bool,
    /// The key was collected this tick (key and door sounds).
    pub picked_key: bool,
    /// The princess was reached: the level is won.
    pub won: bool,
    /// A death was detected and the respawn protocol ran (alert sound).
    pub died: bool,
}

/// A well-formed world: every part well-formed, and the door closed and
/// in place as long as the key has not been collected.
pub open spec fn world_wf(w: World) -> bool {
    &&& solids_wf(w.solids@)
    &&& volumes_wf(w.ladders@)
    &&& volumes_wf(w.hazards@)
    &&& volumes_wf(w.keys@)
    &&& volumes_wf(w.checkpoints@)
    &&& volumes_wf(w.princesses@)
    &&& door_wf(w.door)
    &&& player_wf(w.player)
    &&& guards_wf(w.guards@)
    &&& spawns_wf(w.spawns@)
    &&& (!w.session.has_key ==> vec_in_coord(w.door.pos) && w.door.opening is None)
}

/// The guard roster rebuilt from the spawn list.
pub open spec fn fresh_roster_spec(spawns: Seq<GuardSpawn>) -> Seq<Guard> {
    spawns.map_values(|s: GuardSpawn| fresh_guard_spec(s))
}

/// The mathematical value of a [`World`]: the same record with every list
/// abstracted to a sequence.
#[verifier::ext_equal]
pub struct WorldView {
    pub solids: Seq<Solid>,
    pub ladders: Seq<Volume>,
    pub hazards: Seq<Volume>,
    pub keys: Seq<Volume>,
    pub checkpoints: Seq<Volume>,
    pub princesses: Seq<Volume>,
    pub door: Door,
    pub player: PlayerState,
    pub guards: Seq<Guard>,
    pub spawns: Seq<GuardSpawn>,
    pub session: SessionState,
}

impl View for World {
    type V = WorldView;

    open spec fn view(&self) -> WorldView {
        WorldView {
            solids: self.solids@,
            ladders: self.ladders@,
            hazards: self.hazards@,
            keys: self.keys@,
            checkpoints: self.checkpoints@,
            princesses: self.princesses@,
            door: self.door,
            player: self.player,
            guards: self.guards@,
            spawns: self.spawns@,
            session: self.session,
        }
    }
}

/// One tick of the whole simulation, as a function of the starting world:
/// the components' specifications composed in the fixed order the
/// exec tick runs them in.
pub open spec fn tick_spec(w: WorldView, inp: InputState, dt: int) -> (WorldView, TickEvents) {
    let pe = player_step_spec(w.player, inp, dt, w.solids, w.ladders);
    let p1 = pe.0;
    let g1 = player_guards_spec(w.player, inp, dt, w.solids, w.ladders, w.guards);
    let g2 = guards_step_spec(g1, dt, w.solids);
    let khit = !w.session.has_key && first_key_hit(p1.pos, p1.half, w.keys) >= 0;
    let keys3 = if khit {
        w.keys.remove(first_key_hit(p1.pos, p1.half, w.keys))
    } else {
        w.keys
    };
    let solids3 = if khit {
        without_blockers(w.solids)
    } else {
        w.solids
    };
    let door3 = if khit {
        Door {
            pos: w.door.pos,
            opening: Some(
                DoorOpening {
                    start_y: w.door.pos.y,
                    end_y: (w.door.pos.y + DOOR_OPEN_OFFSET) as i64,
                    timer: EffectTimer { elapsed: 0, duration: DOOR_OPEN_DURATION },
                },
            ),
        }
    } else {
        w.door
    };
    let session3 = SessionState { has_key: w.session.has_key || khit };
    let p4 = if overlaps_any(p1.pos, p1.half, w.checkpoints) {
        PlayerState {
            respawn_position: Vec2i { x: CHECKPOINT_RESUME_X, y: CHECKPOINT_RESUME_Y },
            ..p1
        }
    } else {
        p1
    };
    let won = overlaps_any(p4.pos, p4.half, w.princesses);
    let died = overlaps_any(p4.pos, p4.half, w.hazards) || overlaps_any_alive_guard(
        p4.pos,
        p4.half,
        g2,
    );
    let p5 = if died {
        respawned_player_spec(p4)
    } else {
        p4
    };
    let g5 = if died {
        fresh_roster_spec(w.spawns)
    } else {
        g2
    };
    let door9 = door_step_spec(door3, dt);
    let g10 = fade_pass_spec(g5, dt);
    (
        WorldView {
            solids: solids3,
            ladders: w.ladders,
            hazards: w.hazards,
            keys: keys3,
            checkpoints: w.checkpoints,
            princesses: w.princesses,
            door: door9,
            player: p5,
            guards: g10,
            spawns: w.spawns,
            session: session3,
        },
        TickEvents {
            jumped: pe.1.jumped,
            attack_started: pe.1.attack_started,
            picked_key: khit,
            won,
            died,
        },
    )
}

impl World {
    /// Advances the simulation by one tick of `dt` milliseconds under the
    /// tick's input, and reports the one-shot events the tick produced.
    pub fn tick(&mut self, inp: InputState, dt: i64) -> (ev: TickEvents)
        requires
            world_wf(*old(self)),
            0 <= dt <= DT_LIMIT,
        ensures
            final(self)@ == tick_spec(old(self)@, inp, dt as int).0,
            ev == tick_spec(old(self)@, inp, dt as int).1,
            world_wf(*final(self)),
    {
        let pe = player_system(
            &mut self.player,
            &mut self.guards,
            inp,
            dt,
            &self.solids,
            &self.ladders,
        );
        guard_system(&mut self.guards, dt, &self.solids);
        let picked = key_pickup_system(
            &mut self.session,
            self.player.pos,
            self.player.half,
            &mut self.keys,
            &mut self.solids,
            &mut self.door,
        );
        checkpoint_system(&mut self.player, &self.checkpoints);
        let won = princess_rescue_system(self.player.pos, self.player.half, &self.princesses);
        let deadly_hazard = hazard_system(self.player.pos, self.player.half, &self.hazards);
        let deadly_guard = guard_hit_system(self.player.pos, self.player.half, &self.guards);
        let died = deadly_hazard || deadly_guard;
        respawn_system(died, &mut self.player, &mut self.guards, &self.spawns);
        proof {
            if died {
                assert(self.guards@ =~= fresh_roster_spec(old(self).spawns@));
            }
        }
        door_open_system(&mut self.door, dt);
        fade_out_system(&mut self.guards, dt);
        proof {
            assert(self@ =~~= tick_spec(old(self)@, inp, dt as int).0);
        }
        TickEvents { jumped: pe.jumped, attack_started: pe.attack_started, picked_key: picked, won, died }
    }
}

/// Assembles a fresh level session: platforms plus the door blocker as
/// the solid set, the trigger volumes, the player at the entrance, the
/// guard roster from its spawn list, and the key not yet collected.
pub fn spawn_level() -> (w: World)
    ensures
        world_wf(w),
        w.solids@.len() == 9,
        w.ladders@ == crate::level::level_ladders(),
        w.hazards@.len() == 2,
        w.keys@.len() == 1,
        w.checkpoints@.len() == 1,
        w.princesses@.len() == 1,
        w.player == crate::level::spawn_player_state(),
        w.guards@.len() == 1,
        w.spawns@.len() == 1,
        !w.session.has_key,
        forall|i: int| 0 <= i < 8 ==> #[trigger] w.solids@[i] == crate::level::level_platforms()[i],
        w.solids@[8].door_blocker,
{
    let mut solids = spawn_platforms();
    let (door, blocker) = spawn_door();
    solids.push(blocker);
    let mut hazards: Vec<Volume> = Vec::new();
    hazards.push(spawn_spikes());
    hazards.push(spawn_kill_zone());
    let mut keys: Vec<Volume> = Vec::new();
    keys.push(spawn_key());
    let mut checkpoints: Vec<Volume> = Vec::new();
    checkpoints.push(spawn_checkpoint());
    let mut princesses: Vec<Volume> = Vec::new();
    princesses.push(spawn_princess());
    let spawns = setup();
    let guards = spawn_guards(&spawns);
    World {
        solids,
        ladders: spawn_ladders(),
        hazards,
        keys,
        checkpoints,
        princesses,
        door,
        player: spawn_player(),
        guards,
        spawns,
        session: SessionState { has_key: false },
    }
}

} // verus!
