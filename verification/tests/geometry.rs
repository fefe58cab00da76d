//! The fixed-point plane: square roots, scaling, boxes and circles, and the
//! spawner's border placement.

use space_commander::events::SpawnSide;
use space_commander::geom::{abs_mag, circles_overlap, isqrt, norm, scaled, within_box, Vec2i};
use space_commander::spawner::SpawnField;

#[test]
fn isqrt_exact_values() {
    assert_eq!(isqrt(0), 0);
    assert_eq!(isqrt(1), 1);
    assert_eq!(isqrt(3), 1);
    assert_eq!(isqrt(4), 2);
    assert_eq!(isqrt(99), 9);
    assert_eq!(isqrt(100), 10);
    assert_eq!(isqrt(2_000_000_000_000_000_000), 1_414_213_562);
}

#[test]
fn norm_of_axis_and_pythagorean_vectors() {
    assert_eq!(norm(Vec2i { x: 0, y: 0 }), 0);
    assert_eq!(norm(Vec2i { x: -7, y: 0 }), 7);
    assert_eq!(norm(Vec2i { x: 3, y: 4 }), 5);
    assert_eq!(norm(Vec2i { x: 300_000, y: -400_000 }), 500_000);
    assert_eq!(norm(Vec2i { x: 1, y: 1 }), 1);
}

#[test]
fn abs_mag_both_signs() {
    assert_eq!(abs_mag(5), 5);
    assert_eq!(abs_mag(-5), 5);
    assert_eq!(abs_mag(0), 0);
}

#[test]
fn scaled_rounds_toward_zero_and_keeps_endpoints() {
    assert_eq!(scaled(100, 0, 10), 0);
    assert_eq!(scaled(100, 10, 10), 100);
    assert_eq!(scaled(100, 5, 10), 50);
    assert_eq!(scaled(-100, 5, 10), -50);
    assert_eq!(scaled(7, 1, 3), 2);
    assert_eq!(scaled(-7, 1, 3), -2);
}

#[test]
fn within_box_is_a_per_axis_test() {
    let target = Vec2i { x: 100, y: 200 };
    assert!(within_box(Vec2i { x: 105, y: 195 }, target, 5));
    assert!(!within_box(Vec2i { x: 106, y: 200 }, target, 5));
    assert!(!within_box(Vec2i { x: 100, y: 194 }, target, 5));
}

#[test]
fn circles_overlap_counts_touching() {
    let a = Vec2i { x: 0, y: 0 };
    let b = Vec2i { x: 10_000, y: 0 };
    assert!(circles_overlap(a, 5_000, b, 5_000));
    assert!(!circles_overlap(a, 4_999, b, 5_000));
    assert!(circles_overlap(a, 8_000, Vec2i { x: 3_000, y: 4_000 }, 0));
}

#[test]
fn spawn_points_sit_on_their_borders() {
    let f = SpawnField::new(540_000);
    assert_eq!(f.left, -550_000);
    assert_eq!(f.right, 550_000);
    assert_eq!(f.top, 550_000);
    assert_eq!(f.bottom, -550_000);
    let p = f.spawn_point_for(SpawnSide::Left, 123_456);
    assert_eq!(p, Vec2i { x: -600_000, y: 123_456 });
    let p = f.spawn_point_for(SpawnSide::Top, -1);
    assert_eq!(p, Vec2i { x: -1, y: 600_000 });
    let p = f.spawn_point_for(SpawnSide::Right, 0);
    assert_eq!(p, Vec2i { x: 600_000, y: 0 });
    let p = f.spawn_point_for(SpawnSide::Bottom, 549_999);
    assert_eq!(p, Vec2i { x: 549_999, y: -600_000 });
}

#[test]
fn random_spawn_point_lands_on_a_border() {
    let f = SpawnField::new(540_000);
    for _ in 0..50 {
        let (p, side) = f.new_spawn_point();
        match side {
            SpawnSide::Left => {
                assert_eq!(p.x, -600_000);
                assert!(f.bottom <= p.y && p.y < f.top);
            }
            SpawnSide::Top => {
                assert_eq!(p.y, 600_000);
                assert!(f.left <= p.x && p.x < f.right);
            }
            SpawnSide::Right => {
                assert_eq!(p.x, 600_000);
                assert!(f.bottom <= p.y && p.y < f.top);
            }
            SpawnSide::Bottom => {
                assert_eq!(p.y, -600_000);
                assert!(f.left <= p.x && p.x < f.right);
            }
        }
    }
}
