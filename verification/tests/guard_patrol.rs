use platformer_core::collide::Solid;
use platformer_core::geom::Vec2i;
use platformer_core::guard::{GuardSpawn, guard_system, spawn_guards};

fn v(x: i64, y: i64) -> Vec2i {
    Vec2i { x, y }
}

fn one_guard(x: i64, left: i64, right: i64) -> Vec<platformer_core::guard::Guard> {
    let spawns = vec![GuardSpawn { pos: v(x, 45_000), left, right }];
    spawn_guards(&spawns)
}

#[test]
fn guard_at_right_limit_clamps_and_flips() {
    // Guard at x = 700 with right_limit = 700 and direction = 1: the next
    // tick clamps x to 700 and flips the direction to -1.
    let mut guards = one_guard(700_000, 540_000, 700_000);
    assert_eq!(guards[0].direction, 1);
    let solids: Vec<Solid> = Vec::new();
    guard_system(&mut guards, 1_000, &solids);
    assert_eq!(guards[0].pos.x, 700_000);
    assert_eq!(guards[0].direction, -1);
}

#[test]
fn guard_at_left_limit_clamps_and_flips_back() {
    let mut guards = one_guard(540_000, 540_000, 700_000);
    guards[0].direction = -1;
    let solids: Vec<Solid> = Vec::new();
    guard_system(&mut guards, 1_000, &solids);
    assert_eq!(guards[0].pos.x, 540_000);
    assert_eq!(guards[0].direction, 1);
}

#[test]
fn guard_patrols_inside_limits_without_flipping() {
    let mut guards = one_guard(600_000, 540_000, 700_000);
    let solids: Vec<Solid> = Vec::new();
    // Patrol speed 40 over 1 s: 600 -> 640, still inside the limits.
    guard_system(&mut guards, 1_000, &solids);
    assert_eq!(guards[0].pos.x, 640_000);
    assert_eq!(guards[0].direction, 1);
}

#[test]
fn guard_never_leaves_its_limits_over_many_ticks() {
    let mut guards = one_guard(620_000, 540_000, 700_000);
    let solids = vec![Solid {
        pos: v(600_000, 15_000),
        half: v(200_000, 12_000),
        door_blocker: false,
    }];
    for _ in 0..50 {
        guard_system(&mut guards, 250, &solids);
        assert!(guards[0].pos.x >= 540_000);
        assert!(guards[0].pos.x <= 700_000);
    }
}

#[test]
fn dying_guard_is_inert_in_patrol() {
    let mut guards = one_guard(600_000, 540_000, 700_000);
    guards[0].alive = false;
    let before_pos = guards[0].pos;
    let solids: Vec<Solid> = Vec::new();
    guard_system(&mut guards, 1_000, &solids);
    assert_eq!(guards[0].pos, before_pos);
    assert_eq!(guards[0].vel, v(0, 0));
}

#[test]
fn spawned_guard_matches_its_spawn_record() {
    let spawns = vec![GuardSpawn { pos: v(620_000, 45_000), left: 540_000, right: 700_000 }];
    let guards = spawn_guards(&spawns);
    assert_eq!(guards.len(), 1);
    let g = &guards[0];
    assert_eq!(g.pos, v(620_000, 45_000));
    assert_eq!(g.speed, 40_000);
    assert_eq!(g.left_limit, 540_000);
    assert_eq!(g.right_limit, 700_000);
    assert!(g.alive);
    assert_eq!(g.direction, 1);
    assert_eq!(g.gravity, -520_000);
    assert!(g.fade.is_none());
}
