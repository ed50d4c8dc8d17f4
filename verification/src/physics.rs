//! Per-body physical state and its update rules.
//!
//! A body owns translational and rotational kinematic state plus a local
//! polygon shape. Forces accumulate into the acceleration fields during a
//! step; integration advances position, velocity and shape and then clears
//! the accumulators. Rotation is a decoupled kinematic spin driven by the
//! same accumulated vector as translation — a deliberate simplification, not
//! torque.

use vstd::prelude::*;
use crate::fixed::{
    UNIT, TWO_UNIT, abs_val, clip, cosine, cosine_fp, fp_div, fp_mul, fp_div_i64, fp_mul_i64,
    lemma_fp_mul_unit, lemma_fp_mul_zero, lemma_quot_divisible, lemma_quot_of_multiple,
    lemma_trig_at_zero, sat_add, sat_sub, sat_add_i64, sat_sub_i64, sine, sine_fp,
};
use crate::vector_3d::{
    Vector3D, spec_add, spec_divide, spec_dot, spec_length, spec_length_squared, spec_multiply,
    spec_normalize, spec_set_magnitude, spec_subtract, zero_vec,
};
use crate::rng::{gen_range_i64, new_rng};

verus! {

/// Gravitational constant of a fresh body: 0.0001 in fixed point.
pub const DEFAULT_G_CONST: i64 = 100;

/// The full physical state of one body, as the contracts speak of it.
pub struct BodyState {
    pub shape: Seq<Vector3D>,
    pub position: Vector3D,
    pub velocity: Vector3D,
    pub acceleration: Vector3D,
    pub spin_velocity: Vector3D,
    pub spin_acceleration: Vector3D,
    pub mass: i64,
    pub scale: i64,
    pub g_const: i64,
}

/// One simulated rigid body.
#[derive(Clone, Debug)]
pub struct Physics {
    pub shape: Vec<Vector3D>,
    pub position: Vector3D,
    pub velocity: Vector3D,
    pub acceleration: Vector3D,
    pub spin_velocity: Vector3D,
    pub spin_acceleration: Vector3D,
    pub mass: i64,
    pub scale: i64,
    pub g_const: i64,
}

impl View for Physics {
    type V = BodyState;

    open spec fn view(&self) -> BodyState {
        BodyState {
            shape: self.shape@,
            position: self.position,
            velocity: self.velocity,
            acceleration: self.acceleration,
            spin_velocity: self.spin_velocity,
            spin_acceleration: self.spin_acceleration,
            mass: self.mass,
            scale: self.scale,
            g_const: self.g_const,
        }
    }
}

/// State of a body fresh from the constructor: everything at rest, one unit
/// of mass and of collision radius, the stock gravitational constant.
pub open spec fn initial_body(shape: Seq<Vector3D>) -> BodyState {
    BodyState {
        shape,
        position: zero_vec(),
        velocity: zero_vec(),
        acceleration: zero_vec(),
        spin_velocity: zero_vec(),
        spin_acceleration: zero_vec(),
        mass: UNIT,
        scale: UNIT,
        g_const: DEFAULT_G_CONST,
    }
}

/// Rotation about the x axis by the fixed-point angle `theta`.
pub open spec fn spec_rotate_x(p: Vector3D, theta: int) -> Vector3D {
    let cs = cosine(theta);
    let sn = sine(theta);
    Vector3D {
        x: p.x,
        y: sat_sub(fp_mul(cs, p.y as int), fp_mul(sn, p.z as int)) as i64,
        z: sat_add(fp_mul(sn, p.y as int), fp_mul(cs, p.z as int)) as i64,
    }
}

/// Rotation about the y axis by the fixed-point angle `theta`.
pub open spec fn spec_rotate_y(p: Vector3D, theta: int) -> Vector3D {
    let cs = cosine(theta);
    let sn = sine(theta);
    Vector3D {
        x: sat_add(fp_mul(cs, p.x as int), fp_mul(sn, p.z as int)) as i64,
        y: p.y,
        z: sat_sub(fp_mul(cs, p.z as int), fp_mul(sn, p.x as int)) as i64,
    }
}

/// Rotation about the z axis by the fixed-point angle `theta`.
pub open spec fn spec_rotate_z(p: Vector3D, theta: int) -> Vector3D {
    let cs = cosine(theta);
    let sn = sine(theta);
    Vector3D {
        x: sat_sub(fp_mul(cs, p.x as int), fp_mul(sn, p.y as int)) as i64,
        y: sat_add(fp_mul(sn, p.x as int), fp_mul(cs, p.y as int)) as i64,
        z: p.z,
    }
}

/// One vertex taken through the three axis rotations, x first, then y, then
/// z — fixed-axis Euler angles, exactly as the integrator applies them.
pub open spec fn spec_rotate_point(p: Vector3D, ax: int, ay: int, az: int) -> Vector3D {
    spec_rotate_z(spec_rotate_y(spec_rotate_x(p, ax), ay), az)
}

/// Position integration: position moves by the old velocity, then velocity
/// by the accumulated acceleration — symplectic Euler, in that order.
pub open spec fn model_calculate_position(b: BodyState, dt: int) -> BodyState {
    BodyState {
        position: spec_add(b.position, spec_multiply(b.velocity, dt)),
        velocity: spec_add(b.velocity, spec_multiply(b.acceleration, dt)),
        ..b
    }
}

/// Spin integration: spin velocity first absorbs the accumulated spin
/// acceleration, then every shape vertex is rotated in place by the per-axis
/// angles `spin_velocity * dt`.
pub open spec fn model_calculate_spin(b: BodyState, dt: int) -> BodyState {
    let sv = spec_add(b.spin_velocity, spec_multiply(b.spin_acceleration, dt));
    let ax = fp_mul(sv.x as int, dt);
    let ay = fp_mul(sv.y as int, dt);
    let az = fp_mul(sv.z as int, dt);
    BodyState {
        spin_velocity: sv,
        shape: b.shape.map_values(|p: Vector3D| spec_rotate_point(p, ax, ay, az)),
        ..b
    }
}

/// One whole integration step: position, then spin, then both accumulators
/// reset to exactly zero.
pub open spec fn model_update(b: BodyState, dt: int) -> BodyState {
    let stepped = model_calculate_spin(model_calculate_position(b, dt), dt);
    BodyState { acceleration: zero_vec(), spin_acceleration: zero_vec(), ..stepped }
}

/// Gravitational pull of `t` on `b` across the displacement `tts`: inverse
/// square in effect, because the strength `g * m1 * m2 / d` is rescaled by
/// `set_magnitude`, which divides by `d` once more. A displacement of length
/// zero applies no force. Only the acting body's own `g_const` enters.
pub open spec fn model_attraction(b: BodyState, t: BodyState, tts: Vector3D) -> BodyState {
    let distance = spec_length(tts);
    if distance > 0 {
        let strength = fp_mul(
            b.g_const as int,
            fp_div(fp_mul(b.mass as int, t.mass as int), distance),
        );
        let accel = spec_divide(spec_set_magnitude(tts, strength), b.mass as int);
        BodyState {
            acceleration: spec_add(b.acceleration, accel),
            spin_acceleration: spec_add(b.spin_acceleration, accel),
            ..b
        }
    } else {
        b
    }
}

/// Final normal speed of a body of mass `m1` at normal speed `v1i` after a
/// perfectly elastic collision with a body of mass `m2` at normal speed
/// `v2i`.
pub open spec fn elastic_v1(m1: int, v1i: int, m2: int, v2i: int) -> int {
    fp_div(
        sat_add(fp_mul(v1i, sat_sub(m1, m2)), fp_mul(TWO_UNIT as int, fp_mul(m2, v2i))),
        sat_add(m1, m2),
    )
}

/// Both velocities after an elastic collision along `direction`: the normal
/// components exchange momentum, the perpendicular components are kept.
pub open spec fn model_collision_velocities(b: BodyState, t: BodyState, direction: Vector3D) -> (
    Vector3D,
    Vector3D,
) {
    let v1i = spec_dot(b.velocity, direction);
    let v2i = spec_dot(t.velocity, direction);
    let v1p = spec_subtract(b.velocity, spec_multiply(direction, v1i));
    let v2p = spec_subtract(t.velocity, spec_multiply(direction, v2i));
    let v1f = elastic_v1(b.mass as int, v1i, t.mass as int, v2i);
    let v2f = elastic_v1(t.mass as int, v2i, b.mass as int, v1i);
    (
        spec_add(v1p, spec_multiply(direction, v1f)),
        spec_add(v2p, spec_multiply(direction, v2f)),
    )
}

/// The two positions after the separating shift along `d`: the acting body
/// moves by `-edge`, the target by `+edge`, where `edge` is the overlap plus
/// the time step.
pub open spec fn model_shift(b: BodyState, t: BodyState, dt: int, d: Vector3D, ed: int) -> (
    Vector3D,
    Vector3D,
) {
    let edge = sat_add(ed, dt);
    (
        spec_add(b.position, spec_multiply(d, sat_sub(0, edge))),
        spec_add(t.position, spec_multiply(d, edge)),
    )
}

/// A direction the random fallback could have produced: unit-box components
/// in the plane, no depth.
pub open spec fn random_direction_ok(d: Vector3D) -> bool {
    &&& d.z == 0
    &&& -(UNIT as int) <= d.x < UNIT as int
    &&& -(UNIT as int) <= d.y < UNIT as int
}

/// What the separating shift leaves behind: positions moved along the given
/// direction, or along some random in-plane direction when the given one has
/// length zero; nothing else changes.
pub open spec fn shift_post(
    b: BodyState,
    t: BodyState,
    dt: int,
    direction: Vector3D,
    ed: int,
    b2: BodyState,
    t2: BodyState,
) -> bool {
    if spec_length_squared(direction) != 0 {
        let ps = model_shift(b, t, dt, direction, ed);
        b2 == BodyState { position: ps.0, ..b } && t2 == BodyState { position: ps.1, ..t }
    } else {
        exists|d: Vector3D|
            random_direction_ok(d) && {
                let ps = model_shift(b, t, dt, d, ed);
                b2 == BodyState { position: ps.0, ..b } && t2 == BodyState { position: ps.1, ..t }
            }
    }
}

/// Collision radius of a body: its scale, grown by its distance from the
/// origin scaled by the time step — a deliberate non-physical fudge, not a
/// bug.
pub open spec fn spec_radius(b: BodyState, dt: int) -> int {
    sat_add(b.scale as int, fp_mul(spec_length(b.position), dt))
}

/// Signed clearance between the two collision spheres.
pub open spec fn spec_edge_distance(b: BodyState, t: BodyState, tts: Vector3D, dt: int) -> int {
    sat_sub(spec_length(tts), sat_add(spec_radius(b, dt), spec_radius(t, dt)))
}

/// What collision handling leaves behind: nothing when the spheres are
/// clear; otherwise elastic velocities along the collision normal followed
/// by the separating shift.
pub open spec fn collision_post(
    b: BodyState,
    t: BodyState,
    tts: Vector3D,
    dt: int,
    b2: BodyState,
    t2: BodyState,
) -> bool {
    let ed = spec_edge_distance(b, t, tts, dt);
    if ed > 0 {
        b2 == b && t2 == t
    } else {
        let dir = spec_normalize(spec_multiply(tts, -(UNIT as int)));
        let vs = model_collision_velocities(b, t, dir);
        shift_post(
            BodyState { velocity: vs.0, ..b },
            BodyState { velocity: vs.1, ..t },
            dt,
            dir,
            ed,
            b2,
            t2,
        )
    }
}

impl Physics {
    /// A body at rest at the origin with the given local shape.
    pub fn new(shape: Vec<Vector3D>) -> (r: Physics)
        ensures
            r@ == initial_body(shape@),
    {
        let position: Vector3D = Vector3D::new(0, 0, 0);
        let velocity: Vector3D = Vector3D::new(0, 0, 0);
        let acceleration: Vector3D = Vector3D::new(0, 0, 0);
        let spin_velocity: Vector3D = Vector3D::new(0, 0, 0);
        let spin_acceleration: Vector3D = Vector3D::new(0, 0, 0);
        let mass: i64 = UNIT;
        let scale: i64 = UNIT;
        let g_const: i64 = DEFAULT_G_CONST;
        Physics {
            shape,
            position,
            velocity,
            acceleration,
            spin_velocity,
            spin_acceleration,
            mass,
            scale,
            g_const,
        }
    }

    fn rotate_x(&self, xyz_point: Vector3D, theta: i64) -> (r: Vector3D)
        ensures
            r == spec_rotate_x(xyz_point, theta as int),
    {
        let cs: i64 = cosine_fp(theta);
        let sn: i64 = sine_fp(theta);
        let x: i64 = xyz_point.x;
        let y: i64 = sat_sub_i64(fp_mul_i64(cs, xyz_point.y), fp_mul_i64(sn, xyz_point.z));
        let z: i64 = sat_add_i64(fp_mul_i64(sn, xyz_point.y), fp_mul_i64(cs, xyz_point.z));
        Vector3D::new(x, y, z)
    }

    fn rotate_y(&self, xyz_point: Vector3D, theta: i64) -> (r: Vector3D)
        ensures
            r == spec_rotate_y(xyz_point, theta as int),
    {
        let cs: i64 = cosine_fp(theta);
        let sn: i64 = sine_fp(theta);
        let x: i64 = sat_add_i64(fp_mul_i64(cs, xyz_point.x), fp_mul_i64(sn, xyz_point.z));
        let y: i64 = xyz_point.y;
        let z: i64 = sat_sub_i64(fp_mul_i64(cs, xyz_point.z), fp_mul_i64(sn, xyz_point.x));
        Vector3D::new(x, y, z)
    }

    fn rotate_z(&self, xyz_point: Vector3D, theta: i64) -> (r: Vector3D)
        ensures
            r == spec_rotate_z(xyz_point, theta as int),
    {
        let cs: i64 = cosine_fp(theta);
        let sn: i64 = sine_fp(theta);
        let x: i64 = sat_sub_i64(fp_mul_i64(cs, xyz_point.x), fp_mul_i64(sn, xyz_point.y));
        let y: i64 = sat_add_i64(fp_mul_i64(sn, xyz_point.x), fp_mul_i64(cs, xyz_point.y));
        let z: i64 = xyz_point.z;
        Vector3D::new(x, y, z)
    }

    fn calculate_position(&mut self, timestep: i64)
        ensures
            final (self)@ == model_calculate_position(old(self)@, timestep as int),
    {
        let timestep_velocity: Vector3D = self.velocity.multiply(timestep);
        let timestep_acceleration: Vector3D = self.acceleration.multiply(timestep);
        self.position = self.position.add_vector(timestep_velocity);
        self.velocity = self.velocity.add_vector(timestep_acceleration);
    }

    fn rotated_shape(&self, ax: i64, ay: i64, az: i64) -> (r: Vec<Vector3D>)
        ensures
            r@ == self.shape@.map_values(
                |p: Vector3D| spec_rotate_point(p, ax as int, ay as int, az as int),
            ),
    {
        let mut rotated: Vec<Vector3D> = Vec::new();
        let n: usize = self.shape.len();
        let mut i: usize = 0;
        while i < n
            invariant
                i <= n,
                n == self.shape@.len(),
                rotated@.len() == i,
                forall|k: int|
                    0 <= k < i ==> rotated@[k] == spec_rotate_point(
                        self.shape@[k],
                        ax as int,
                        ay as int,
                        az as int,
                    ),
            decreases n - i,
        {
            let mut point: Vector3D = self.shape[i];
            point = self.rotate_x(point, ax);
            point = self.rotate_y(point, ay);
            point = self.rotate_z(point, az);
            rotated.push(point);
            i += 1;
        }
        proof {
            assert(rotated@ =~= self.shape@.map_values(
                |p: Vector3D| spec_rotate_point(p, ax as int, ay as int, az as int),
            ));
        }
        rotated
    }

    fn calculate_spin(&mut self, timestep: i64)
        ensures
            final (self)@ == model_calculate_spin(old(self)@, timestep as int),
    {
        let timestep_spin_acc: Vector3D = self.spin_acceleration.multiply(timestep);
        self.spin_velocity = self.spin_velocity.add_vector(timestep_spin_acc);
        let x_rotation: i64 = fp_mul_i64(self.spin_velocity.x, timestep);
        let y_rotation: i64 = fp_mul_i64(self.spin_velocity.y, timestep);
        let z_rotation: i64 = fp_mul_i64(self.spin_velocity.z, timestep);
        let shape: Vec<Vector3D> = self.rotated_shape(x_rotation, y_rotation, z_rotation);
        self.shape = shape;
    }

    fn get_random_direction(&self) -> (r: Vector3D)
        ensures
            random_direction_ok(r),
    {
        let mut rng = new_rng();
        let x_rnd: i64 = gen_range_i64(&mut rng, -UNIT, UNIT);
        let y_rnd: i64 = gen_range_i64(&mut rng, -UNIT, UNIT);
        Vector3D::new(x_rnd, y_rnd, 0)
    }

    /// Move the body to the given position.
    pub fn set_position(&mut self, x: i64, y: i64, z: i64)
        ensures
            final (self)@ == (BodyState { position: Vector3D { x, y, z }, ..old(self)@ }),
    {
        self.position = Vector3D::new(x, y, z);
    }

    /// Replace the body's velocity.
    pub fn set_velocity(&mut self, x: i64, y: i64, z: i64)
        ensures
            final (self)@ == (BodyState { velocity: Vector3D { x, y, z }, ..old(self)@ }),
    {
        self.velocity = Vector3D::new(x, y, z);
    }

    /// Replace the body's spin velocity.
    pub fn set_spin_velocity(&mut self, x: i64, y: i64, z: i64)
        ensures
            final (self)@ == (BodyState { spin_velocity: Vector3D { x, y, z }, ..old(self)@ }),
    {
        self.spin_velocity = Vector3D::new(x, y, z);
    }

    /// Replace the accumulated acceleration.
    pub fn set_acceleration(&mut self, x: i64, y: i64, z: i64)
        ensures
            final (self)@ == (BodyState { acceleration: Vector3D { x, y, z }, ..old(self)@ }),
    {
        self.acceleration = Vector3D::new(x, y, z);
    }

    /// Replace the body's mass.
    pub fn set_mass(&mut self, mass: i64)
        ensures
            final (self)@ == (BodyState { mass, ..old(self)@ }),
    {
        self.mass = mass;
    }

    /// Replace the body's collision scale.
    pub fn set_scale(&mut self, scale: i64)
        ensures
            final (self)@ == (BodyState { scale, ..old(self)@ }),
    {
        self.scale = scale;
    }

    /// Push the two bodies apart along `direction` (or along a random
    /// in-plane direction when `direction` has length zero) so that they no
    /// longer overlap.
    pub fn correct_shift_collision(
        &mut self,
        target: &mut Physics,
        timestep: i64,
        direction: Vector3D,
        edge_distance: i64,
    )
        ensures
            shift_post(
                old(self)@,
                old(target)@,
                timestep as int,
                direction,
                edge_distance as int,
                final (self)@,
                final (target)@,
            ),
    {
        let edge: i64 = sat_add_i64(edge_distance, timestep);
        let mut direction: Vector3D = direction;
        if direction.get_length_squared() == 0 {
            direction = self.get_random_direction();
        }
        let self_edge_vec: Vector3D = direction.multiply(sat_sub_i64(0, edge));
        let target_edge_vec: Vector3D = direction.multiply(edge);
        let self_shifted: Vector3D = self.position.add_vector(self_edge_vec);
        let target_shifted: Vector3D = target.position.add_vector(target_edge_vec);
        self.position = self_shifted;
        target.position = target_shifted;
    }

    /// Exchange momentum along `direction` as a perfectly elastic collision,
    /// leaving the perpendicular velocity components of both bodies alone.
    pub fn calculate_collision_velocities(&mut self, target: &mut Physics, direction: Vector3D)
        ensures
            final (self)@ == (BodyState {
                velocity: model_collision_velocities(old(self)@, old(target)@, direction).0,
                ..old(self)@
            }),
            final (target)@ == (BodyState {
                velocity: model_collision_velocities(old(self)@, old(target)@, direction).1,
                ..old(target)@
            }),
    {
        let v1i: i64 = self.velocity.dot_product(direction);
        let v2i: i64 = target.velocity.dot_product(direction);
        let v1i_vec: Vector3D = direction.multiply(v1i);
        let v2i_vec: Vector3D = direction.multiply(v2i);
        let v1p: Vector3D = self.velocity.subtract_vector(v1i_vec);
        let v2p: Vector3D = target.velocity.subtract_vector(v2i_vec);

        let m1: i64 = self.mass;
        let m2: i64 = target.mass;

        let v1f: i64 = fp_div_i64(
            sat_add_i64(
                fp_mul_i64(v1i, sat_sub_i64(m1, m2)),
                fp_mul_i64(TWO_UNIT, fp_mul_i64(m2, v2i)),
            ),
            sat_add_i64(m1, m2),
        );
        let v2f: i64 = fp_div_i64(
            sat_add_i64(
                fp_mul_i64(v2i, sat_sub_i64(m2, m1)),
                fp_mul_i64(TWO_UNIT, fp_mul_i64(m1, v1i)),
            ),
            sat_add_i64(m2, m1),
        );

        let v1f_vec: Vector3D = direction.multiply(v1f);
        let v2f_vec: Vector3D = direction.multiply(v2f);

        let v1: Vector3D = v1p.add_vector(v1f_vec);
        let v2: Vector3D = v2p.add_vector(v2f_vec);

        self.velocity = v1;
        target.velocity = v2;
    }

    /// Accumulate the attraction of `target` on this body across the given
    /// displacement; a displacement of length zero applies no force.
    pub fn apply_attraction(&mut self, target: &mut Physics, tts_distance: Vector3D)
        ensures
            final (self)@ == model_attraction(old(self)@, old(target)@, tts_distance),
            *final (target) == *old(target),
    {
        let distance: i64 = tts_distance.get_length();
        if distance > 0 {
            let strength: i64 = fp_mul_i64(
                self.g_const,
                fp_div_i64(fp_mul_i64(self.mass, target.mass), distance),
            );
            let mut force: Vector3D = tts_distance.set_magnitude(strength);
            force = force.divide(self.mass);
            self.acceleration = self.acceleration.add_vector(force);
            self.spin_acceleration = self.spin_acceleration.add_vector(force);
        }
    }

    /// Resolve a possible collision with `target` across the displacement
    /// `tts_distance`: when the collision spheres touch or overlap, exchange
    /// momentum elastically along the collision normal and push the bodies
    /// apart.
    pub fn apply_collision(&mut self, target: &mut Physics, tts_distance: Vector3D, timestep: i64)
        ensures
            collision_post(
                old(self)@,
                old(target)@,
                tts_distance,
                timestep as int,
                final (self)@,
                final (target)@,
            ),
    {
        let self_radius: i64 = sat_add_i64(
            self.scale,
            fp_mul_i64(self.position.get_length(), timestep),
        );
        let target_radius: i64 = sat_add_i64(
            target.scale,
            fp_mul_i64(target.position.get_length(), timestep),
        );

        let total_radius: i64 = sat_add_i64(self_radius, target_radius);
        let edge_distance: i64 = sat_sub_i64(tts_distance.get_length(), total_radius);

        if edge_distance <= 0 {
            let stt_distance: Vector3D = tts_distance.multiply(-UNIT);
            let stt_direction: Vector3D = stt_distance.normalize();

            self.calculate_collision_velocities(target, stt_direction);
            self.correct_shift_collision(target, timestep, stt_direction, edge_distance);
        }
    }

    /// Apply both pairwise interactions — attraction, then collision — for
    /// the displacement from this body to `target`.
    pub fn apply_forces(&mut self, target: &mut Physics, timestep: i64)
        ensures
            ({
                let tts = spec_subtract(old(target)@.position, old(self)@.position);
                collision_post(
                    model_attraction(old(self)@, old(target)@, tts),
                    old(target)@,
                    tts,
                    timestep as int,
                    final (self)@,
                    final (target)@,
                )
            }),
    {
        let tts_distance: Vector3D = target.position.subtract_vector(self.position);
        self.apply_attraction(target, tts_distance);
        self.apply_collision(target, tts_distance, timestep);
    }

    /// One integration step: advance position and spin, then reset both
    /// accumulators to exactly the zero vector.
    pub fn update(&mut self, timestep: i64)
        ensures
            final (self)@ == model_update(old(self)@, timestep as int),
            final (self).acceleration == zero_vec(),
            final (self).spin_acceleration == zero_vec(),
    {
        self.calculate_position(timestep);
        self.calculate_spin(timestep);
        self.acceleration = self.acceleration.multiply(0);
        self.spin_acceleration = self.spin_acceleration.multiply(0);
        proof {
            crate::vector_3d::lemma_multiply_by_zero(old(self)@.acceleration);
            crate::vector_3d::lemma_multiply_by_zero(
                model_calculate_spin(
                    model_calculate_position(old(self)@, timestep as int),
                    timestep as int,
                ).spin_acceleration,
            );
        }
    }
}

/// In a perfectly elastic collision of two bodies of equal mass, the normal
/// velocity components swap exactly: each body leaves with the other's
/// incoming normal speed. Stated away from saturation (the mass-velocity
/// products stay in range) and away from fixed-point rounding (those
/// products are exact multiples of `UNIT`); with rounding the swap holds
/// only to within the rounding error.
pub proof fn lemma_equal_mass_velocity_swap(m: i64, v1i: i64, v2i: i64)
    requires
        m > 0,
        2 * (m as int) <= i64::MAX,
        (m as int * v1i as int) % (UNIT as int) == 0,
        (m as int * v2i as int) % (UNIT as int) == 0,
        2 * abs_val(m as int * v1i as int) <= i64::MAX,
        2 * abs_val(m as int * v2i as int) <= i64::MAX,
    ensures
        elastic_v1(m as int, v1i as int, m as int, v2i as int) == v2i as int,
        elastic_v1(m as int, v2i as int, m as int, v1i as int) == v1i as int,
{
    lemma_equal_mass_one_side(m as int, v1i as int, v2i as int);
    lemma_equal_mass_one_side(m as int, v2i as int, v1i as int);
}

proof fn lemma_equal_mass_one_side(m: int, v1i: int, v2i: int)
    requires
        m > 0,
        2 * m <= i64::MAX,
        (m * v2i) % (UNIT as int) == 0,
        2 * abs_val(m * v2i) <= i64::MAX,
        i64::MIN <= v1i <= i64::MAX,
        i64::MIN <= v2i <= i64::MAX,
    ensures
        elastic_v1(m, v1i, m, v2i) == v2i,
{
    let u = UNIT as int;
    lemma_fp_mul_zero(v1i);
    assert(fp_mul(v1i, sat_sub(m, m)) == 0);
    lemma_quot_divisible(m * v2i, u);
    let k = (m * v2i) / u;
    crate::fixed::lemma_abs_mul(u, k);
    assert(u * abs_val(k) == abs_val(m * v2i));
    assert(fp_mul(m, v2i) == k);
    assert(fp_mul(TWO_UNIT as int, k) == 2 * k) by {
        lemma_quot_of_multiple(2 * k, u);
        assert((TWO_UNIT as int) * k == (2 * k) * u) by (nonlinear_arith)
            requires
                TWO_UNIT as int == 2_000_000,
                u == 1_000_000,
        ;
        assert(abs_val(2 * k) <= i64::MAX);
        assert(clip(2 * k) == 2 * k);
    }
    assert(sat_add(0, 2 * k) == 2 * k);
    assert(sat_add(m, m) == 2 * m);
    assert(fp_div(2 * k, 2 * m) == v2i) by {
        assert((2 * k) * u == 2 * (m * v2i)) by {
            vstd::arithmetic::mul::lemma_mul_is_commutative(u, k);
            assert(k * u == m * v2i);
            vstd::arithmetic::mul::lemma_mul_is_associative(2, k, u);
        }
        assert(2 * (m * v2i) == v2i * (2 * m)) by (nonlinear_arith);
        lemma_quot_of_multiple(v2i, 2 * m);
        assert(clip(v2i) == v2i);
    }
}

/// A body whose spin velocity and accumulated spin acceleration are both
/// zero keeps every shape vertex exactly unchanged through an integration
/// step — and its spin state stays zero, so the shape is unchanged after
/// any number of steps.
pub proof fn lemma_no_spin_keeps_shape(b: BodyState, dt: int)
    requires
        b.spin_velocity == zero_vec(),
        b.spin_acceleration == zero_vec(),
    ensures
        model_update(b, dt).shape == b.shape,
        model_update(b, dt).spin_velocity == zero_vec(),
        model_update(b, dt).spin_acceleration == zero_vec(),
{
    let b1 = model_calculate_position(b, dt);
    lemma_fp_mul_zero(dt);
    assert(spec_multiply(b1.spin_acceleration, dt) == zero_vec());
    let sv = spec_add(b1.spin_velocity, spec_multiply(b1.spin_acceleration, dt));
    assert(sv == zero_vec());
    let b2 = model_calculate_spin(b1, dt);
    assert(fp_mul(sv.x as int, dt) == 0);
    assert forall|i: int| 0 <= i < b.shape.len() implies #[trigger] b2.shape[i] == b.shape[i] by {
        lemma_rotate_point_zero(b.shape[i]);
    }
    assert(b2.shape =~= b.shape);
}

/// Rotating a vertex by a zero angle about every axis returns it exactly.
pub proof fn lemma_rotate_point_zero(p: Vector3D)
    ensures
        spec_rotate_point(p, 0, 0, 0) == p,
{
    lemma_trig_at_zero();
    lemma_rotate_axis_zero_facts(p.x as int, p.y as int, p.z as int);
    let p1 = spec_rotate_x(p, 0);
    assert(p1 == p);
    lemma_rotate_axis_zero_facts(p1.x as int, p1.y as int, p1.z as int);
    let p2 = spec_rotate_y(p1, 0);
    assert(p2 == p);
    lemma_rotate_axis_zero_facts(p2.x as int, p2.y as int, p2.z as int);
    assert(spec_rotate_z(p2, 0) == p);
}

proof fn lemma_rotate_axis_zero_facts(x: int, y: int, z: int)
    requires
        i64::MIN <= x <= i64::MAX,
        i64::MIN <= y <= i64::MAX,
        i64::MIN <= z <= i64::MAX,
    ensures
        sat_sub(fp_mul(UNIT as int, y), fp_mul(0, z)) == y,
        sat_add(fp_mul(0, y), fp_mul(UNIT as int, z)) == z,
        sat_add(fp_mul(UNIT as int, x), fp_mul(0, z)) == x,
        sat_sub(fp_mul(UNIT as int, z), fp_mul(0, x)) == z,
        sat_sub(fp_mul(UNIT as int, x), fp_mul(0, y)) == x,
        sat_add(fp_mul(0, x), fp_mul(UNIT as int, y)) == y,
{
    lemma_fp_mul_unit(x);
    lemma_fp_mul_unit(y);
    lemma_fp_mul_unit(z);
    lemma_fp_mul_zero(x);
    lemma_fp_mul_zero(y);
    lemma_fp_mul_zero(z);
}

} // verus!
