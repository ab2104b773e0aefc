use platformer_core::collide::{Solid, move_with_collisions};
use platformer_core::geom::{Vec2i, aabb_intersects};

fn v(x: i64, y: i64) -> Vec2i {
    Vec2i { x, y }
}

fn solid(x: i64, y: i64, hx: i64, hy: i64) -> Solid {
    Solid { pos: v(x, y), half: v(hx, hy), door_blocker: false }
}

#[test]
fn zero_displacement_never_moves() {
    // The resolver is idempotent on a zero displacement, even while
    // penetrating a solid.
    let solids = vec![solid(0, 0, 50_000, 50_000)];
    let mut pos = v(10_000, 10_000);
    let hit = move_with_collisions(&mut pos, v(0, 0), v(7_000, 12_000), &solids);
    assert_eq!(pos, v(10_000, 10_000));
    assert!(!hit.0);
    assert!(!hit.1);
}

#[test]
fn falling_body_lands_on_floor_surface() {
    // A floor of half-height 12 at world y=20: the body of half-height 12
    // comes to rest with its center at 20 + 12 + 12 = 44.
    let solids = vec![solid(180_000, 20_000, 180_000, 12_000)];
    let mut pos = v(80_000, 45_000);
    let hit = move_with_collisions(&mut pos, v(0, -30_000), v(7_000, 12_000), &solids);
    assert!(!hit.0);
    assert!(hit.1);
    assert_eq!(pos, v(80_000, 44_000));
}

#[test]
fn long_step_can_overshoot_a_thin_solid() {
    // The resolver clamps only against solids the tentative position
    // penetrates: a displacement far larger than the solid steps past it.
    let solids = vec![solid(180_000, 20_000, 180_000, 12_000)];
    let mut pos = v(80_000, 45_000);
    let hit = move_with_collisions(&mut pos, v(0, -520_000), v(7_000, 12_000), &solids);
    assert!(!hit.1);
    assert_eq!(pos.y, -475_000);
}

#[test]
fn moving_right_clamps_to_left_edge() {
    let solids = vec![solid(100_000, 0, 10_000, 50_000)];
    let mut pos = v(0, 0);
    let hit = move_with_collisions(&mut pos, v(95_000, 0), v(7_000, 12_000), &solids);
    assert!(hit.0);
    // Clamped to the solid's left edge minus the half-width sum.
    assert_eq!(pos.x, 100_000 - 10_000 - 7_000);
}

#[test]
fn moving_left_clamps_to_right_edge() {
    let solids = vec![solid(-100_000, 0, 10_000, 50_000)];
    let mut pos = v(0, 0);
    let hit = move_with_collisions(&mut pos, v(-95_000, 0), v(7_000, 12_000), &solids);
    assert!(hit.0);
    assert_eq!(pos.x, -100_000 + 10_000 + 7_000);
}

#[test]
fn no_residual_penetration_after_resolve() {
    // Spaced solids: after any non-zero move the resolved position
    // penetrates none of them.
    let solids = vec![
        solid(0, 0, 50_000, 10_000),
        solid(200_000, 0, 50_000, 10_000),
        solid(100_000, 100_000, 20_000, 10_000),
    ];
    let half = v(7_000, 12_000);
    let mut pos = v(100_000, 15_000);
    move_with_collisions(&mut pos, v(-80_000, -30_000), half, &solids);
    for s in &solids {
        assert!(!aabb_intersects(pos, half, s.pos, s.half));
    }
}

#[test]
fn unobstructed_move_applies_full_delta() {
    let solids: Vec<Solid> = Vec::new();
    let mut pos = v(1_000, 2_000);
    let hit = move_with_collisions(&mut pos, v(3_000, -4_000), v(7_000, 12_000), &solids);
    assert!(!hit.0);
    assert!(!hit.1);
    assert_eq!(pos, v(4_000, -2_000));
}

#[test]
fn diagonal_move_resolves_x_before_y() {
    // Moving down-right onto a floor: x applies fully, y clamps onto the
    // floor's top at the already-resolved x.
    let solids = vec![solid(0, 0, 500_000, 10_000)];
    let mut pos = v(0, 50_000);
    let hit = move_with_collisions(&mut pos, v(30_000, -60_000), v(7_000, 12_000), &solids);
    assert!(!hit.0);
    assert!(hit.1);
    assert_eq!(pos, v(30_000, 22_000));
}
