// Edge cases of the distance-band collision test. Coordinates and radii are
// integers in tenths of a unit.

use circle_collision::circle::Circle;
use circle_collision::circle::CircleError;

#[test]
fn externally_tangent_circles_collide() {
    // Centers exactly the radius sum apart: the inclusive bound is met.
    let a = Circle::new(0, 0, 100).unwrap();
    let b = Circle::new(200, 0, 100).unwrap();
    assert_eq!(a.check_collision(&b), true);
    assert_eq!(b.check_collision(&a), true);
}

#[test]
fn overlapping_circles_collide() {
    let a = Circle::new(0, 0, 100).unwrap();
    let b = Circle::new(150, 0, 100).unwrap();
    assert_eq!(a.check_collision(&b), true);
    assert_eq!(b.check_collision(&a), true);
}

#[test]
fn nested_circle_without_contact_does_not_collide() {
    // Squared center distance 100 lies below the squared radius
    // difference 4900: the small circle floats inside the large one.
    let a = Circle::new(0, 0, 100).unwrap();
    let b = Circle::new(10, 0, 30).unwrap();
    assert_eq!(a.check_collision(&b), false);
    assert_eq!(b.check_collision(&a), false);
}

#[test]
fn internally_tangent_circles_collide() {
    // Squared center distance equals the squared radius difference: the
    // small circle touches the large one from inside.
    let a = Circle::new(0, 0, 100).unwrap();
    let b = Circle::new(70, 0, 30).unwrap();
    assert_eq!(a.check_collision(&b), true);
    assert_eq!(b.check_collision(&a), true);
}

#[test]
fn identical_circles_collide() {
    let a = Circle::new(-37, 58, 91).unwrap();
    let b = Circle::new(-37, 58, 91).unwrap();
    assert_eq!(a.check_collision(&b), true);
    assert_eq!(b.check_collision(&a), true);
}

#[test]
fn coincident_points_collide() {
    // Two zero-radius circles at the same center: the band is [0, 0] and
    // the squared distance is 0.
    let a = Circle::new(5, 5, 0).unwrap();
    let b = Circle::new(5, 5, 0).unwrap();
    assert_eq!(a.check_collision(&b), true);
}

#[test]
fn point_on_boundary_collides() {
    // A zero-radius circle sitting exactly on the other's boundary.
    let a = Circle::new(0, 0, 100).unwrap();
    let b = Circle::new(100, 0, 0).unwrap();
    assert_eq!(a.check_collision(&b), true);
    assert_eq!(b.check_collision(&a), true);
}

#[test]
fn distant_circles_at_extreme_coordinates_do_not_collide() {
    // The widest values the representation admits: the squared distance is
    // 2 * 4294967295^2 and the squared radius sum is 4294967294^2.
    let a = Circle::new(i32::MIN, i32::MIN, i32::MAX).unwrap();
    let b = Circle::new(i32::MAX, i32::MAX, i32::MAX).unwrap();
    assert_eq!(a.check_collision(&b), false);
    assert_eq!(b.check_collision(&a), false);
}

#[test]
fn new_keeps_position_and_radius() {
    let a = Circle::new(-201, 77, 42).unwrap();
    assert_eq!(a.get_position(), (-201, 77));
    assert_eq!(a.get_radius(), 42);
}

#[test]
fn set_radius_failure_keeps_circle() {
    let mut a = Circle::new(3, -4, 55).unwrap();
    assert_eq!(a.set_radius(-1).err(), Some(CircleError::InvalidRadius));
    assert_eq!(a.get_position(), (3, -4));
    assert_eq!(a.get_radius(), 55);
}
