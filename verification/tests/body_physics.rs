use orbit_sim::fixed::{HALF_PI_FP, UNIT};
use orbit_sim::physics::Physics;
use orbit_sim::vector_3d::Vector3D;

const U: i64 = UNIT;
const DT: i64 = 16_000;

fn cube() -> Vec<Vector3D> {
    vec![
        Vector3D::new(-U, -U, -U),
        Vector3D::new(U, -U, -U),
        Vector3D::new(U, U, -U),
        Vector3D::new(-U, U, -U),
        Vector3D::new(-U, -U, U),
        Vector3D::new(U, -U, U),
        Vector3D::new(U, U, U),
        Vector3D::new(-U, U, U),
    ]
}

#[test]
fn new_body_is_at_rest_with_unit_mass() {
    let body = Physics::new(cube());
    assert_eq!(body.position, Vector3D::new(0, 0, 0));
    assert_eq!(body.velocity, Vector3D::new(0, 0, 0));
    assert_eq!(body.acceleration, Vector3D::new(0, 0, 0));
    assert_eq!(body.spin_velocity, Vector3D::new(0, 0, 0));
    assert_eq!(body.spin_acceleration, Vector3D::new(0, 0, 0));
    assert_eq!(body.mass, U);
    assert_eq!(body.scale, U);
    assert_eq!(body.g_const, 100);
}

#[test]
fn update_resets_both_accumulators_to_zero() {
    let mut body = Physics::new(cube());
    body.set_acceleration(123 * U, -456, i64::MAX);
    body.spin_acceleration = Vector3D::new(-9 * U, 7, 1);
    body.update(DT);
    assert_eq!(body.acceleration, Vector3D::new(0, 0, 0));
    assert_eq!(body.spin_acceleration, Vector3D::new(0, 0, 0));

    body.set_acceleration(1, 1, 1);
    body.update(-50 * U);
    assert_eq!(body.acceleration, Vector3D::new(0, 0, 0));
    assert_eq!(body.spin_acceleration, Vector3D::new(0, 0, 0));
}

#[test]
fn zero_spin_leaves_shape_unchanged_over_many_steps() {
    let mut body = Physics::new(cube());
    body.set_position(12 * U, -7 * U, 3 * U);
    body.set_velocity(10 * U, 30 * U, 5 * U);
    for _ in 0..50 {
        body.update(DT);
    }
    assert_eq!(body.shape, cube());
}

#[test]
fn quarter_turn_spin_permutes_cube_corners() {
    let mut body = Physics::new(cube());
    body.set_spin_velocity(0, 0, HALF_PI_FP);
    body.update(U);
    // A quarter turn about z sends (x, y, z) to (-y, x, z) exactly.
    assert_eq!(body.shape[0], Vector3D::new(U, -U, -U));
    assert_eq!(body.shape[6], Vector3D::new(-U, U, U));
}

#[test]
fn position_integrates_with_pre_step_velocity() {
    let mut body = Physics::new(cube());
    body.set_position(-45 * U, -45 * U, 0);
    body.set_velocity(10 * U, 30 * U, 5 * U);
    body.set_acceleration(U, 0, 0);
    body.update(DT);
    // position += old velocity * dt, exactly
    assert_eq!(
        body.position,
        Vector3D::new(-45 * U + 160_000, -45 * U + 480_000, 80_000)
    );
    // velocity += acceleration * dt afterwards
    assert_eq!(body.velocity, Vector3D::new(10 * U + 16_000, 30 * U, 5 * U));
}

#[test]
fn equal_mass_head_on_collision_swaps_velocities() {
    let mut one = Physics::new(cube());
    let mut two = Physics::new(cube());
    one.set_mass(2 * U);
    two.set_mass(2 * U);
    one.set_velocity(5 * U, 0, 0);
    two.set_velocity(-5 * U, 0, 0);
    one.calculate_collision_velocities(&mut two, Vector3D::new(U, 0, 0));
    assert_eq!(one.velocity, Vector3D::new(-5 * U, 0, 0));
    assert_eq!(two.velocity, Vector3D::new(5 * U, 0, 0));
}

#[test]
fn collision_keeps_perpendicular_components() {
    let mut one = Physics::new(cube());
    let mut two = Physics::new(cube());
    one.set_mass(2 * U);
    two.set_mass(2 * U);
    one.set_velocity(5 * U, 7 * U, -2 * U);
    two.set_velocity(-5 * U, U, 4 * U);
    one.calculate_collision_velocities(&mut two, Vector3D::new(U, 0, 0));
    assert_eq!(one.velocity, Vector3D::new(-5 * U, 7 * U, -2 * U));
    assert_eq!(two.velocity, Vector3D::new(5 * U, U, 4 * U));
}

#[test]
fn apply_collision_separates_overlapping_bodies() {
    let mut one = Physics::new(cube());
    let mut two = Physics::new(cube());
    two.set_position(U, 0, 0);
    one.set_velocity(3 * U, 0, 0);
    two.set_velocity(-3 * U, 0, 0);
    let tts = two.position.subtract_vector(one.position);
    one.apply_collision(&mut two, tts, 0);
    assert_eq!(one.velocity, Vector3D::new(-3 * U, 0, 0));
    assert_eq!(two.velocity, Vector3D::new(3 * U, 0, 0));
    assert_eq!(one.position, Vector3D::new(-U, 0, 0));
    assert_eq!(two.position, Vector3D::new(2 * U, 0, 0));
}

#[test]
fn apply_collision_far_apart_does_nothing() {
    let mut one = Physics::new(cube());
    let mut two = Physics::new(cube());
    two.set_position(100 * U, 0, 0);
    one.set_velocity(3 * U, 0, 0);
    let tts = two.position.subtract_vector(one.position);
    one.apply_collision(&mut two, tts, 0);
    assert_eq!(one.velocity, Vector3D::new(3 * U, 0, 0));
    assert_eq!(one.position, Vector3D::new(0, 0, 0));
    assert_eq!(two.position, Vector3D::new(100 * U, 0, 0));
}

#[test]
fn coincident_bodies_get_pushed_apart_in_the_plane() {
    let mut one = Physics::new(cube());
    let mut two = Physics::new(cube());
    // Exactly coincident: the collision normal degenerates and the random
    // fallback direction is used; it always lies in the z = 0 plane.
    let tts = two.position.subtract_vector(one.position);
    one.apply_collision(&mut two, tts, DT);
    assert_eq!(one.position.z, 0);
    assert_eq!(two.position.z, 0);
}

#[test]
fn attraction_at_zero_distance_applies_no_force() {
    let mut one = Physics::new(cube());
    let mut two = Physics::new(cube());
    one.apply_attraction(&mut two, Vector3D::new(0, 0, 0));
    assert_eq!(one.acceleration, Vector3D::new(0, 0, 0));
    assert_eq!(one.spin_acceleration, Vector3D::new(0, 0, 0));
}

#[test]
fn orbit_scenario_accelerates_toward_center_and_shifts_by_velocity() {
    // Central body at the origin with huge mass; orbiting body offset to
    // the lower left. After one force application the acceleration points
    // from the orbiting body toward the center (+x, +y), symmetric in x
    // and y, flat in z; the first integration step shifts the position by
    // exactly velocity * dt using the pre-step velocity.
    let mut center = Physics::new(cube());
    center.set_mass(10_000_000 * U);
    let mut body = Physics::new(cube());
    body.set_position(-45 * U, -45 * U, 0);
    body.set_mass(30 * U);
    body.set_velocity(10 * U, 30 * U, 5 * U);

    let tts = center.position.subtract_vector(body.position);
    body.apply_attraction(&mut center, tts);
    assert!(body.acceleration.x > 0);
    assert!(body.acceleration.y > 0);
    assert_eq!(body.acceleration.x, body.acceleration.y);
    assert_eq!(body.acceleration.z, 0);
    assert_eq!(body.spin_acceleration, body.acceleration);

    let accel = body.acceleration;
    body.update(DT);
    assert_eq!(
        body.position,
        Vector3D::new(-45 * U + 160_000, -45 * U + 480_000, 80_000)
    );
    assert!(body.velocity.x > 10 * U);
    assert!(body.velocity.y > 30 * U);
    assert_eq!(body.acceleration, Vector3D::new(0, 0, 0));
    assert!(accel.x > 0);
}

#[test]
fn apply_forces_combines_attraction_and_collision() {
    let mut one = Physics::new(cube());
    let mut two = Physics::new(cube());
    two.set_position(U, 0, 0);
    one.set_mass(30 * U);
    two.set_mass(30 * U);
    one.set_velocity(3 * U, 0, 0);
    two.set_velocity(-3 * U, 0, 0);
    one.apply_forces(&mut two, 0);
    // Attraction pulled the acting body toward the target...
    assert!(one.acceleration.x > 0);
    assert_eq!(one.acceleration.y, 0);
    // ...and the overlapping equal-mass pair exchanged velocities and was
    // pushed apart along the collision normal.
    assert_eq!(one.velocity, Vector3D::new(-3 * U, 0, 0));
    assert_eq!(two.velocity, Vector3D::new(3 * U, 0, 0));
    assert_eq!(one.position, Vector3D::new(-U, 0, 0));
    assert_eq!(two.position, Vector3D::new(2 * U, 0, 0));
}

#[test]
fn setters_replace_only_their_field() {
    let mut body = Physics::new(cube());
    body.set_mass(42);
    body.set_scale(7);
    assert_eq!(body.mass, 42);
    assert_eq!(body.scale, 7);
    assert_eq!(body.g_const, 100);
    assert_eq!(body.position, Vector3D::new(0, 0, 0));
}
