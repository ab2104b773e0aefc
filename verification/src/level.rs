//! The level data: static solids, ladders, hazards, trigger volumes and
//! actor spawn configuration.
//!
//! Layout is configuration, not logic: these constructors return the
//! records the simulation runs on, in world coordinates (the constructors
//! take the layout's screen-space coordinates and flip the y-axis).  The
//! host is free to hang sprites and labels on them.

use vstd::prelude::*;
use crate::collide::Solid;
use crate::effects::Door;
use crate::geom::{Vec2i, Volume, half_wf, to_world, vec_in_coord};
use crate::guard::{ACTOR_HALF_X, ACTOR_HALF_Y, GuardSpawn};
use crate::player::PlayerState;

verus! {

/// Ground speed of the player, milli-units per second.
pub const PLAYER_SPEED: i64 = 90_000;

/// Upward impulse a jump applies to the player.
pub const PLAYER_JUMP_VELOCITY: i64 = 190_000;

/// Gravity acting on the player, milli-units per second squared.
pub const PLAYER_GRAVITY: i64 = -520_000;

/// The coyote-time budget, milliseconds.
pub const COYOTE_TIME: i64 = 120;

/// The jump-buffer budget, milliseconds.
pub const JUMP_BUFFER: i64 = 120;

/// Climb speed on a ladder, milli-units per second.
pub const CLIMB_SPEED: i64 = 60_000;

/// The platforms of the level: four floor runs and four ledges.
pub open spec fn level_platforms() -> Seq<Solid> {
    seq![
        Solid { pos: Vec2i { x: 180_000, y: 15_000 }, half: Vec2i { x: 180_000, y: 12_000 }, door_blocker: false },
        Solid { pos: Vec2i { x: 600_000, y: 15_000 }, half: Vec2i { x: 200_000, y: 12_000 }, door_blocker: false },
        Solid { pos: Vec2i { x: 1_010_000, y: 15_000 }, half: Vec2i { x: 170_000, y: 12_000 }, door_blocker: false },
        Solid { pos: Vec2i { x: 1_390_000, y: 15_000 }, half: Vec2i { x: 210_000, y: 12_000 }, door_blocker: false },
        Solid { pos: Vec2i { x: 240_000, y: 95_000 }, half: Vec2i { x: 50_000, y: 8_000 }, door_blocker: false },
        Solid { pos: Vec2i { x: 360_000, y: 75_000 }, half: Vec2i { x: 40_000, y: 8_000 }, door_blocker: false },
        Solid { pos: Vec2i { x: 500_000, y: 65_000 }, half: Vec2i { x: 60_000, y: 8_000 }, door_blocker: false },
        Solid { pos: Vec2i { x: 880_000, y: 85_000 }, half: Vec2i { x: 60_000, y: 8_000 }, door_blocker: false },
    ]
}

/// The two ladders of the level.
pub open spec fn level_ladders() -> Seq<Volume> {
    seq![
        Volume { pos: Vec2i { x: 180_000, y: 65_000 }, half: Vec2i { x: 8_000, y: 32_000 } },
        Volume { pos: Vec2i { x: 1_025_000, y: 85_000 }, half: Vec2i { x: 8_000, y: 51_000 } },
    ]
}

/// One platform record from its world-space position and half-extents.
pub fn spawn_platform(pos: Vec2i, half: Vec2i) -> (s: Solid)
    requires
        vec_in_coord(pos),
        half_wf(half),
    ensures
        s == (Solid { pos, half, door_blocker: false }),
{
    Solid { pos, half, door_blocker: false }
}

/// The level's platforms: floors and ledges, as the resolver sees them.
pub fn spawn_platforms() -> (solids: Vec<Solid>)
    ensures
        solids@ == level_platforms(),
{
    let mut solids: Vec<Solid> = Vec::new();
    solids.push(spawn_platform(to_world(Vec2i { x: 180_000, y: 210_000 }), Vec2i { x: 180_000, y: 12_000 }));
    solids.push(spawn_platform(to_world(Vec2i { x: 600_000, y: 210_000 }), Vec2i { x: 200_000, y: 12_000 }));
    solids.push(spawn_platform(to_world(Vec2i { x: 1_010_000, y: 210_000 }), Vec2i { x: 170_000, y: 12_000 }));
    solids.push(spawn_platform(to_world(Vec2i { x: 1_390_000, y: 210_000 }), Vec2i { x: 210_000, y: 12_000 }));
    solids.push(spawn_platform(to_world(Vec2i { x: 240_000, y: 130_000 }), Vec2i { x: 50_000, y: 8_000 }));
    solids.push(spawn_platform(to_world(Vec2i { x: 360_000, y: 150_000 }), Vec2i { x: 40_000, y: 8_000 }));
    solids.push(spawn_platform(to_world(Vec2i { x: 500_000, y: 160_000 }), Vec2i { x: 60_000, y: 8_000 }));
    solids.push(spawn_platform(to_world(Vec2i { x: 880_000, y: 140_000 }), Vec2i { x: 60_000, y: 8_000 }));
    proof {
        assert(solids@ =~= level_platforms());
    }
    solids
}

/// One ladder volume from its screen-space center and full height.
pub fn spawn_ladder(pos: Vec2i, height: i64) -> (ladder: Volume)
    requires
        vec_in_coord(pos),
        0 < height <= 2 * crate::units::HALF_EXTENT_LIMIT,
        height % 2 == 0,
    ensures
        ladder.pos.x == pos.x,
        ladder.pos.y == crate::geom::LEVEL_HEIGHT_MU - pos.y,
        ladder.half.x == 8_000 && ladder.half.y == height / 2,
{
    Volume { pos: to_world(pos), half: Vec2i { x: 8_000, y: height / 2 } }
}

/// The level's ladders.
pub fn spawn_ladders() -> (ladders: Vec<Volume>)
    ensures
        ladders@ == level_ladders(),
{
    let mut ladders: Vec<Volume> = Vec::new();
    ladders.push(spawn_ladder(Vec2i { x: 180_000, y: 160_000 }, 64_000));
    ladders.push(spawn_ladder(Vec2i { x: 1_025_000, y: 140_000 }, 102_000));
    proof {
        assert(ladders@ =~= level_ladders());
    }
    ladders
}

/// The torch positions, in world coordinates: pure set dressing for the
/// host to light.
pub fn spawn_torches() -> (torches: Vec<Vec2i>)
    ensures
        torches@ == seq![
            Vec2i { x: 140_000, y: 75_000 },
            Vec2i { x: 620_000, y: 75_000 },
            Vec2i { x: 980_000, y: 75_000 },
            Vec2i { x: 1_320_000, y: 75_000 },
        ],
{
    let mut torches: Vec<Vec2i> = Vec::new();
    torches.push(to_world(Vec2i { x: 140_000, y: 150_000 }));
    torches.push(to_world(Vec2i { x: 620_000, y: 150_000 }));
    torches.push(to_world(Vec2i { x: 980_000, y: 150_000 }));
    torches.push(to_world(Vec2i { x: 1_320_000, y: 150_000 }));
    proof {
        assert(torches@ =~= seq![
            Vec2i { x: 140_000, y: 75_000 },
            Vec2i { x: 620_000, y: 75_000 },
            Vec2i { x: 980_000, y: 75_000 },
            Vec2i { x: 1_320_000, y: 75_000 },
        ]);
    }
    torches
}

/// The spike strip: a hazard volume.
pub fn spawn_spikes() -> (spikes: Volume)
    ensures
        spikes == (Volume { pos: Vec2i { x: 740_000, y: 27_000 }, half: Vec2i { x: 16_000, y: 7_000 } }),
{
    Volume { pos: to_world(Vec2i { x: 740_000, y: 198_000 }), half: Vec2i { x: 16_000, y: 7_000 } }
}

/// The kill zone under the level: a hazard volume spanning its width.
pub fn spawn_kill_zone() -> (zone: Volume)
    ensures
        zone.pos.x == 800_000 && zone.pos.y == -40_000,
        zone.half == (Vec2i { x: 800_000, y: 40_000 }),
{
    Volume { pos: to_world(Vec2i { x: 800_000, y: 265_000 }), half: Vec2i { x: 800_000, y: 40_000 } }
}

/// The key's pickup volume.
pub fn spawn_key() -> (key: Volume)
    ensures
        key == (Volume { pos: Vec2i { x: 880_000, y: 99_000 }, half: Vec2i { x: 6_000, y: 6_000 } }),
{
    Volume { pos: to_world(Vec2i { x: 880_000, y: 126_000 }), half: Vec2i { x: 6_000, y: 6_000 } }
}

/// The checkpoint's touch volume.
pub fn spawn_checkpoint() -> (checkpoint: Volume)
    ensures
        checkpoint == (Volume {
            pos: Vec2i { x: 990_000, y: 35_000 },
            half: Vec2i { x: 10_000, y: 10_000 },
        }),
{
    Volume { pos: to_world(Vec2i { x: 990_000, y: 190_000 }), half: Vec2i { x: 10_000, y: 10_000 } }
}

/// The princess's rescue volume.
pub fn spawn_princess() -> (princess: Volume)
    ensures
        princess == (Volume {
            pos: Vec2i { x: 1_500_000, y: 44_000 },
            half: Vec2i { x: 9_000, y: 13_000 },
        }),
{
    Volume { pos: to_world(Vec2i { x: 1_500_000, y: 181_000 }), half: Vec2i { x: 9_000, y: 13_000 } }
}

/// The door and the solid blocker standing in it until the key unlocks it.
pub fn spawn_door() -> (r: (Door, Solid))
    ensures
        r.0 == (Door { pos: Vec2i { x: 1_230_000, y: 55_000 }, opening: None::<crate::effects::DoorOpening> }),
        r.1 == (Solid {
            pos: Vec2i { x: 1_230_000, y: 55_000 },
            half: Vec2i { x: 12_000, y: 30_000 },
            door_blocker: true,
        }),
{
    let pos = to_world(Vec2i { x: 1_230_000, y: 170_000 });
    (
        Door { pos, opening: None },
        Solid { pos, half: Vec2i { x: 12_000, y: 30_000 }, door_blocker: true },
    )
}

/// The player's initial state: at the level entrance, at rest, facing
/// right, with the respawn position set there.
pub open spec fn spawn_player_state() -> PlayerState {
    PlayerState {
        pos: Vec2i { x: 80_000, y: 45_000 },
        vel: Vec2i { x: 0, y: 0 },
        half: Vec2i { x: ACTOR_HALF_X, y: ACTOR_HALF_Y },
        speed: PLAYER_SPEED,
        jump_velocity: PLAYER_JUMP_VELOCITY,
        gravity: PLAYER_GRAVITY,
        coyote_time: COYOTE_TIME,
        jump_buffer: JUMP_BUFFER,
        climb_speed: CLIMB_SPEED,
        coyote_timer: COYOTE_TIME,
        jump_buffer_timer: 0,
        on_ladder: false,
        respawn_position: Vec2i { x: 80_000, y: 45_000 },
        walk_timer: 0,
        attack_cooldown: 0,
        attack_active: 0,
        facing: 1,
    }
}

/// The player's initial state, standing at the level entrance with the
/// respawn position set there.
pub fn spawn_player() -> (p: PlayerState)
    ensures
        p == spawn_player_state(),
{
    let pos = to_world(Vec2i { x: 80_000, y: 180_000 });
    PlayerState {
        pos,
        vel: Vec2i { x: 0, y: 0 },
        half: Vec2i { x: ACTOR_HALF_X, y: ACTOR_HALF_Y },
        speed: PLAYER_SPEED,
        jump_velocity: PLAYER_JUMP_VELOCITY,
        gravity: PLAYER_GRAVITY,
        coyote_time: COYOTE_TIME,
        jump_buffer: JUMP_BUFFER,
        climb_speed: CLIMB_SPEED,
        coyote_timer: COYOTE_TIME,
        jump_buffer_timer: 0,
        on_ladder: false,
        respawn_position: pos,
        walk_timer: 0,
        attack_cooldown: 0,
        attack_active: 0,
        facing: 1,
    }
}

/// The guard spawn roster the level starts with and respawns restore.
pub fn setup() -> (spawns: Vec<GuardSpawn>)
    ensures
        spawns@ == seq![
            GuardSpawn { pos: Vec2i { x: 620_000, y: 45_000 }, left: 540_000, right: 700_000 },
        ],
{
    let mut spawns: Vec<GuardSpawn> = Vec::new();
    spawns.push(
        GuardSpawn {
            pos: to_world(Vec2i { x: 620_000, y: 180_000 }),
            left: 540_000,
            right: 700_000,
        },
    );
    proof {
        assert(spawns@ =~= seq![
            GuardSpawn { pos: Vec2i { x: 620_000, y: 45_000 }, left: 540_000, right: 700_000 },
        ]);
    }
    spawns
}

} // verus!
