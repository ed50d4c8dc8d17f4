use orbit_sim::fixed::UNIT;
use orbit_sim::physics::Physics;
use orbit_sim::simulation::{CENTER_MASS, ORBIT_COUNT, Simulation};
use orbit_sim::vector_3d::Vector3D;

const U: i64 = UNIT;
const DT: i64 = 16_000;

fn cube() -> Vec<Vector3D> {
    vec![
        Vector3D::new(-U, -U, -U),
        Vector3D::new(U, -U, -U),
        Vector3D::new(U, U, -U),
        Vector3D::new(-U, U, -U),
        Vector3D::new(-U, -U, U),
        Vector3D::new(U, -U, U),
        Vector3D::new(U, U, U),
        Vector3D::new(-U, U, U),
    ]
}

#[test]
fn new_world_is_empty() {
    let sim = Simulation::new(960 * U, 540 * U);
    assert_eq!(sim.center_x, 960 * U);
    assert_eq!(sim.center_y, 540 * U);
    assert_eq!(sim.objects.len(), 0);
}

#[test]
fn center_object_has_huge_mass_and_matching_scale() {
    let mut sim = Simulation::new(960 * U, 540 * U);
    sim.add_center_object();
    assert_eq!(sim.objects.len(), 1);
    let center = &sim.objects[0];
    assert_eq!(center.position, Vector3D::new(960 * U, 540 * U, 0));
    assert_eq!(center.mass, 10_000_000 * U);
    assert_eq!(center.mass, CENTER_MASS);
    // scale = mass / 250_000 = 40 units
    assert_eq!(center.scale, 40 * U);
    assert_eq!(center.velocity, Vector3D::new(0, 0, 0));
    assert_eq!(center.spin_velocity, Vector3D::new(0, 0, 0));
    assert_eq!(center.shape, cube());
}

#[test]
fn orbiting_object_lands_in_the_documented_ranges() {
    let mut sim = Simulation::new(960 * U, 540 * U);
    for _ in 0..20 {
        sim.add_orbiting_object();
    }
    for body in &sim.objects {
        // position = center - offset, offset drawn from [-50, -40)
        assert!(body.position.x > 960 * U + 40 * U && body.position.x <= 960 * U + 50 * U);
        assert!(body.position.y > 540 * U + 40 * U && body.position.y <= 540 * U + 50 * U);
        assert_eq!(body.position.z, 0);
        assert!(body.mass >= 10 * U && body.mass < 50 * U);
        // scale = mass / 20, so it lands in [0.5, 2.5)
        assert!(body.scale >= U / 2 && body.scale < 5 * U / 2);
        assert_eq!(body.velocity, Vector3D::new(10 * U, 30 * U, 5 * U));
        assert_eq!(body.g_const, 100);
        assert_eq!(body.shape, cube());
    }
}

#[test]
fn setup_builds_one_center_and_the_full_orbit_count() {
    let mut sim = Simulation::new(0, 0);
    sim.setup_objects();
    assert_eq!(sim.objects.len(), 1 + ORBIT_COUNT);
    assert_eq!(sim.objects[0].mass, CENTER_MASS);
    for body in sim.objects.iter().skip(1) {
        assert!(body.mass >= 10 * U && body.mass < 50 * U);
    }
}

#[test]
fn compute_matches_manual_snapshot_attraction_then_update() {
    // The per-frame loop applies the two-argument, displacement-based
    // attraction against a pre-step snapshot (collision handling is not
    // part of the orchestrated step), then integrates each body.
    let mut one = Physics::new(cube());
    one.set_position(-45 * U, -45 * U, 0);
    one.set_mass(30 * U);
    one.set_velocity(10 * U, 30 * U, 5 * U);
    let mut two = Physics::new(cube());
    two.set_mass(10_000_000 * U);

    let mut sim = Simulation::new(0, 0);
    sim.objects.push(one.clone());
    sim.objects.push(two.clone());
    sim.compute_objects(DT);

    // Manual replay against the snapshot.
    let snapshot = vec![one.clone(), two.clone()];
    let mut expected_one = one.clone();
    let mut scratch = snapshot[1].clone();
    let tts = scratch.position.subtract_vector(expected_one.position);
    expected_one.apply_attraction(&mut scratch, tts);
    expected_one.update(DT);
    let mut expected_two = two.clone();
    let mut scratch = snapshot[0].clone();
    let tts = scratch.position.subtract_vector(expected_two.position);
    expected_two.apply_attraction(&mut scratch, tts);
    expected_two.update(DT);

    assert_eq!(sim.objects[0].position, expected_one.position);
    assert_eq!(sim.objects[0].velocity, expected_one.velocity);
    assert_eq!(sim.objects[0].shape, expected_one.shape);
    assert_eq!(sim.objects[1].position, expected_two.position);
    assert_eq!(sim.objects[1].velocity, expected_two.velocity);
}

#[test]
fn equal_mass_pair_conserves_momentum() {
    // Two bodies of equal mass and equal gravitational constant pull on
    // each other with exactly opposite accelerations, so the velocity sum
    // is invariant and the measured momentum sum can drift only by the
    // rounding of the final mass-velocity products.
    let mut sim = Simulation::new(0, 0);
    let mut one = Physics::new(cube());
    one.set_position(-45 * U, -45 * U, 0);
    one.set_mass(30 * U);
    one.set_velocity(10 * U, 30 * U, 5 * U);
    let mut two = Physics::new(cube());
    two.set_position(45 * U, 45 * U, 0);
    two.set_mass(30 * U);
    two.set_velocity(-10 * U, -30 * U, -5 * U);
    sim.objects.push(one);
    sim.objects.push(two);

    let momentum = |sim: &Simulation| {
        let a = &sim.objects[0];
        let b = &sim.objects[1];
        a.velocity.multiply(a.mass).add_vector(b.velocity.multiply(b.mass))
    };
    let before = momentum(&sim);
    for _ in 0..5 {
        sim.compute_objects(DT);
    }
    let after = momentum(&sim);
    assert!((after.x - before.x).abs() <= 2);
    assert!((after.y - before.y).abs() <= 2);
    assert!((after.z - before.z).abs() <= 2);
}

#[test]
fn heavy_central_body_surfaces_the_momentum_asymmetry() {
    // With a huge central mass the acceleration handed back to the center
    // underflows the fixed-point grid to zero while the light body keeps
    // gaining momentum: total momentum is visibly not conserved, which is
    // exactly the asymmetry this scenario is designed to surface.
    let mut sim = Simulation::new(0, 0);
    let mut center = Physics::new(cube());
    center.set_mass(10_000_000 * U);
    let mut body = Physics::new(cube());
    body.set_position(-45 * U, -45 * U, 0);
    body.set_mass(30 * U);
    body.set_velocity(10 * U, 30 * U, 5 * U);
    sim.objects.push(center);
    sim.objects.push(body);

    for _ in 0..5 {
        sim.compute_objects(DT);
    }
    assert_eq!(sim.objects[0].velocity, Vector3D::new(0, 0, 0));
    assert!(sim.objects[1].velocity.x > 10 * U);
}

#[test]
fn object_points_translate_shape_by_position() {
    let mut sim = Simulation::new(0, 0);
    let mut body = Physics::new(cube());
    body.set_position(10 * U, -2 * U, 3 * U);
    sim.objects.push(body);
    let points = sim.object_points(0);
    assert_eq!(points.len(), 8);
    assert_eq!(points[0], Vector3D::new(9 * U, -3 * U, 2 * U));
    assert_eq!(points[6], Vector3D::new(11 * U, -U, 4 * U));
}

#[test]
fn compute_objects_keeps_the_body_count() {
    let mut sim = Simulation::new(0, 0);
    sim.add_center_object();
    for _ in 0..10 {
        sim.add_orbiting_object();
    }
    sim.compute_objects(DT);
    assert_eq!(sim.objects.len(), 11);
}
