use platformer_core::geom::Vec2i;
use platformer_core::level::{
    spawn_door, spawn_key, spawn_ladder, spawn_ladders, spawn_platform, spawn_platforms,
    spawn_torches,
};

fn v(x: i64, y: i64) -> Vec2i {
    Vec2i { x, y }
}

#[test]
fn platforms_cover_floors_and_ledges() {
    let solids = spawn_platforms();
    assert_eq!(solids.len(), 8);
    // First floor run, converted to world coordinates.
    assert_eq!(solids[0].pos, v(180_000, 15_000));
    assert_eq!(solids[0].half, v(180_000, 12_000));
    assert!(solids.iter().all(|s| !s.door_blocker));
    // Last ledge.
    assert_eq!(solids[7].pos, v(880_000, 85_000));
}

#[test]
fn platform_record_keeps_given_box() {
    let s = spawn_platform(v(100_000, 50_000), v(30_000, 8_000));
    assert_eq!(s.pos, v(100_000, 50_000));
    assert_eq!(s.half, v(30_000, 8_000));
    assert!(!s.door_blocker);
}

#[test]
fn ladder_halves_its_height() {
    let l = spawn_ladder(v(180_000, 160_000), 64_000);
    assert_eq!(l.pos, v(180_000, 65_000));
    assert_eq!(l.half, v(8_000, 32_000));
}

#[test]
fn ladders_match_the_level_layout() {
    let ladders = spawn_ladders();
    assert_eq!(ladders.len(), 2);
    assert_eq!(ladders[1].pos, v(1_025_000, 85_000));
    assert_eq!(ladders[1].half, v(8_000, 51_000));
}

#[test]
fn door_and_blocker_share_a_position() {
    let (door, blocker) = spawn_door();
    assert_eq!(door.pos, blocker.pos);
    assert!(door.opening.is_none());
    assert!(blocker.door_blocker);
    assert_eq!(blocker.half, v(12_000, 30_000));
}

#[test]
fn key_floats_over_the_far_ledge() {
    let key = spawn_key();
    assert_eq!(key.pos, v(880_000, 99_000));
    assert_eq!(key.half, v(6_000, 6_000));
}

#[test]
fn torches_line_the_level() {
    let torches = spawn_torches();
    assert_eq!(torches.len(), 4);
    assert_eq!(torches[0], v(140_000, 75_000));
    assert_eq!(torches[3], v(1_320_000, 75_000));
}
