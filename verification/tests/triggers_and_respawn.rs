use platformer_core::collide::Solid;
use platformer_core::effects::Door;
use platformer_core::geom::{Vec2i, Volume};
use platformer_core::guard::{GuardSpawn, spawn_guards};
use platformer_core::level::spawn_player;
use platformer_core::respawn::respawn_system;
use platformer_core::timer::EffectTimer;
use platformer_core::triggers::{
    SessionState, checkpoint_system, guard_hit_system, hazard_system, key_pickup_system,
    princess_rescue_system,
};

fn v(x: i64, y: i64) -> Vec2i {
    Vec2i { x, y }
}

fn vol(x: i64, y: i64, hx: i64, hy: i64) -> Volume {
    Volume { pos: v(x, y), half: v(hx, hy) }
}

#[test]
fn key_pickup_consumes_key_and_unblocks_door() {
    let mut session = SessionState { has_key: false };
    let mut keys = vec![vol(880_000, 99_000, 6_000, 6_000)];
    let mut solids = vec![
        Solid { pos: v(600_000, 15_000), half: v(200_000, 12_000), door_blocker: false },
        Solid { pos: v(1_230_000, 55_000), half: v(12_000, 30_000), door_blocker: true },
    ];
    let mut door = Door { pos: v(1_230_000, 55_000), opening: None };
    let picked = key_pickup_system(
        &mut session,
        v(880_000, 99_000),
        v(7_000, 12_000),
        &mut keys,
        &mut solids,
        &mut door,
    );
    assert!(picked);
    assert!(session.has_key);
    assert_eq!(keys.len(), 0);
    // Every door blocker is gone; the plain floor stays.
    assert_eq!(solids.len(), 1);
    assert!(!solids[0].door_blocker);
    // The door-opening animation is armed for the 26-unit slide.
    let opening = door.opening.unwrap();
    assert_eq!(opening.start_y, 55_000);
    assert_eq!(opening.end_y, 81_000);
    assert_eq!(opening.timer, EffectTimer { elapsed: 0, duration: 350 });
}

#[test]
fn key_pickup_is_a_no_op_once_key_is_held() {
    let mut session = SessionState { has_key: true };
    let mut keys = vec![vol(880_000, 99_000, 6_000, 6_000)];
    let mut solids = vec![Solid {
        pos: v(1_230_000, 55_000),
        half: v(12_000, 30_000),
        door_blocker: true,
    }];
    let mut door = Door { pos: v(1_230_000, 55_000), opening: None };
    let picked = key_pickup_system(
        &mut session,
        v(880_000, 99_000),
        v(7_000, 12_000),
        &mut keys,
        &mut solids,
        &mut door,
    );
    assert!(!picked);
    assert_eq!(keys.len(), 1);
    assert_eq!(solids.len(), 1);
    assert!(door.opening.is_none());
}

#[test]
fn key_pickup_needs_overlap() {
    let mut session = SessionState { has_key: false };
    let mut keys = vec![vol(880_000, 99_000, 6_000, 6_000)];
    let mut solids: Vec<Solid> = Vec::new();
    let mut door = Door { pos: v(1_230_000, 55_000), opening: None };
    let picked = key_pickup_system(
        &mut session,
        v(80_000, 45_000),
        v(7_000, 12_000),
        &mut keys,
        &mut solids,
        &mut door,
    );
    assert!(!picked);
    assert!(!session.has_key);
    assert_eq!(keys.len(), 1);
}

#[test]
fn checkpoint_stores_the_fixed_resume_point() {
    let mut p = spawn_player();
    p.pos = v(990_000, 35_000);
    let checkpoints = vec![vol(990_000, 35_000, 10_000, 10_000)];
    checkpoint_system(&mut p, &checkpoints);
    // The resume point is an offset spot on the floor in front of the
    // checkpoint, not the checkpoint's own position.
    assert_eq!(p.respawn_position, v(990_000, 55_000));
}

#[test]
fn checkpoint_without_overlap_changes_nothing() {
    let mut p = spawn_player();
    let before = p.respawn_position;
    let checkpoints = vec![vol(990_000, 35_000, 10_000, 10_000)];
    checkpoint_system(&mut p, &checkpoints);
    assert_eq!(p.respawn_position, before);
}

#[test]
fn princess_overlap_wins() {
    let princesses = vec![vol(1_500_000, 44_000, 9_000, 13_000)];
    assert!(princess_rescue_system(v(1_500_000, 44_000), v(7_000, 12_000), &princesses));
    assert!(!princess_rescue_system(v(80_000, 45_000), v(7_000, 12_000), &princesses));
}

#[test]
fn two_overlapping_hazards_raise_one_signal() {
    // Overlapping two hazards at once still yields the one boolean signal,
    // so the respawn protocol runs at most once for it.
    let hazards = vec![
        vol(740_000, 27_000, 16_000, 7_000),
        vol(745_000, 27_000, 16_000, 7_000),
    ];
    let deadly = hazard_system(v(741_000, 27_000), v(7_000, 12_000), &hazards);
    assert!(deadly);
}

#[test]
fn hazard_without_overlap_is_silent() {
    let hazards = vec![vol(740_000, 27_000, 16_000, 7_000)];
    assert!(!hazard_system(v(80_000, 45_000), v(7_000, 12_000), &hazards));
}

#[test]
fn alive_guard_contact_is_deadly_dying_guard_is_not() {
    let spawns = vec![GuardSpawn { pos: v(620_000, 45_000), left: 540_000, right: 700_000 }];
    let mut guards = spawn_guards(&spawns);
    assert!(guard_hit_system(v(620_000, 45_000), v(7_000, 12_000), &guards));
    guards[0].alive = false;
    assert!(!guard_hit_system(v(620_000, 45_000), v(7_000, 12_000), &guards));
}

#[test]
fn respawn_restores_stored_position_and_guard_count() {
    let mut p = spawn_player();
    p.pos = v(740_000, 27_000);
    p.vel = v(12_000, -90_000);
    p.respawn_position = v(990_000, 55_000);
    p.on_ladder = true;
    p.attack_active = 90;
    p.attack_cooldown = 200;
    p.jump_buffer_timer = 60;
    let spawns = vec![
        GuardSpawn { pos: v(620_000, 45_000), left: 540_000, right: 700_000 },
        GuardSpawn { pos: v(900_000, 45_000), left: 850_000, right: 950_000 },
    ];
    let mut guards = spawn_guards(&spawns);
    guards[0].alive = false;
    guards.remove(1);
    respawn_system(true, &mut p, &mut guards, &spawns);
    // Exactly the stored respawn position, velocity zeroed, state cleared.
    assert_eq!(p.pos, v(990_000, 55_000));
    assert_eq!(p.vel, v(0, 0));
    assert!(!p.on_ladder);
    assert_eq!(p.coyote_timer, p.coyote_time);
    assert_eq!(p.jump_buffer_timer, 0);
    assert_eq!(p.attack_active, 0);
    assert_eq!(p.attack_cooldown, 0);
    // The guard roster is rebuilt: one guard per spawn record.
    assert_eq!(guards.len(), spawns.len());
    assert!(guards[0].alive);
    assert!(guards[1].alive);
    assert_eq!(guards[1].pos, v(900_000, 45_000));
}

#[test]
fn respawn_without_signal_changes_nothing() {
    let mut p = spawn_player();
    let before = p;
    let spawns = vec![GuardSpawn { pos: v(620_000, 45_000), left: 540_000, right: 700_000 }];
    let mut guards = spawn_guards(&spawns);
    guards[0].alive = false;
    respawn_system(false, &mut p, &mut guards, &spawns);
    assert_eq!(p, before);
    assert_eq!(guards.len(), 1);
    assert!(!guards[0].alive);
}
