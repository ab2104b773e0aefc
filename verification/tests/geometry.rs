use platformer_core::geom::{Vec2i, aabb_intersects, to_world};

fn v(x: i64, y: i64) -> Vec2i {
    Vec2i { x, y }
}

#[test]
fn overlap_when_boxes_intersect() {
    assert!(aabb_intersects(v(0, 0), v(10_000, 10_000), v(15_000, 0), v(10_000, 10_000)));
}

#[test]
fn no_overlap_when_touching_edges() {
    // Distance exactly equal to the half-extent sum is not an overlap.
    assert!(!aabb_intersects(v(0, 0), v(10_000, 10_000), v(20_000, 0), v(10_000, 10_000)));
}

#[test]
fn no_overlap_when_apart_on_one_axis() {
    assert!(!aabb_intersects(v(0, 0), v(10_000, 10_000), v(0, 50_000), v(10_000, 10_000)));
}

#[test]
fn overlap_is_symmetric() {
    let a = (v(3_000, -2_000), v(5_000, 4_000));
    let b = (v(6_000, 1_000), v(2_000, 2_000));
    assert_eq!(
        aabb_intersects(a.0, a.1, b.0, b.1),
        aabb_intersects(b.0, b.1, a.0, a.1)
    );
}

#[test]
fn to_world_flips_y() {
    let w = to_world(v(80_000, 180_000));
    assert_eq!(w.x, 80_000);
    assert_eq!(w.y, 45_000);
}

#[test]
fn to_world_keeps_x_and_is_involutive_on_y() {
    let w = to_world(to_world(v(123_000, 67_000)));
    assert_eq!(w.x, 123_000);
    assert_eq!(w.y, 67_000);
}
