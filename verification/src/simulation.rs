//! The world: an ordered collection of bodies and the per-frame step.
//!
//! Each step walks every ordered pair of bodies, accumulating attraction
//! against a snapshot of the pre-step state so that the interactions are
//! order-independent, and then integrates each body. The renderer receives
//! only point lists; nothing here touches pixels.

use vstd::prelude::*;
use crate::fixed::{UNIT, fp_div, fp_div_i64, sat_sub, sat_sub_i64};
use crate::physics::{BodyState, DEFAULT_G_CONST, Physics, model_attraction, model_update};
use crate::rng::{gen_range_i64, new_rng};
use crate::vector_3d::{Vector3D, spec_add, spec_subtract, zero_vec};

verus! {

/// Mass of the central body: ten million units.
pub const CENTER_MASS: i64 = 10_000_000 * UNIT;

/// The central body's collision scale is its mass divided by this.
pub const CENTER_SCALE_DIV: i64 = 250_000 * UNIT;

/// An orbiting body's collision scale is its mass divided by this.
pub const ORBIT_SCALE_DIV: i64 = 20 * UNIT;

/// Smallest (inclusive) random center offset of an orbiting body.
pub const OFFSET_LO: i64 = -50 * UNIT;

/// Largest (exclusive) random center offset of an orbiting body.
pub const OFFSET_HI: i64 = -40 * UNIT;

/// Smallest (inclusive) random mass of an orbiting body.
pub const MASS_LO: i64 = 10 * UNIT;

/// Largest (exclusive) random mass of an orbiting body.
pub const MASS_HI: i64 = 50 * UNIT;

/// Initial velocity shared by every orbiting body.
pub const ORBIT_VEL_X: i64 = 10 * UNIT;

/// Initial velocity shared by every orbiting body.
pub const ORBIT_VEL_Y: i64 = 30 * UNIT;

/// Initial velocity shared by every orbiting body.
pub const ORBIT_VEL_Z: i64 = 5 * UNIT;

/// How many orbiting bodies a full setup creates.
pub const ORBIT_COUNT: usize = 1000;

/// The world: a center point and the bodies it owns.
pub struct Simulation {
    pub center_x: i64,
    pub center_y: i64,
    pub objects: Vec<Physics>,
}

/// The local shape every body starts from: the eight corners of the
/// axis-aligned cube one unit out in every axis.
pub open spec fn unit_cube() -> Seq<Vector3D> {
    seq![
        Vector3D { x: (-UNIT) as i64, y: (-UNIT) as i64, z: (-UNIT) as i64 },
        Vector3D { x: UNIT, y: (-UNIT) as i64, z: (-UNIT) as i64 },
        Vector3D { x: UNIT, y: UNIT, z: (-UNIT) as i64 },
        Vector3D { x: (-UNIT) as i64, y: UNIT, z: (-UNIT) as i64 },
        Vector3D { x: (-UNIT) as i64, y: (-UNIT) as i64, z: UNIT },
        Vector3D { x: UNIT, y: (-UNIT) as i64, z: UNIT },
        Vector3D { x: UNIT, y: UNIT, z: UNIT },
        Vector3D { x: (-UNIT) as i64, y: UNIT, z: UNIT },
    ]
}

/// The heavy body that sits at the configured center: huge mass, matching
/// scale, no motion and no spin.
pub open spec fn center_body(cx: int, cy: int) -> BodyState {
    BodyState {
        shape: unit_cube(),
        position: Vector3D { x: cx as i64, y: cy as i64, z: 0 },
        velocity: zero_vec(),
        acceleration: zero_vec(),
        spin_velocity: zero_vec(),
        spin_acceleration: zero_vec(),
        mass: CENTER_MASS,
        scale: fp_div(CENTER_MASS as int, CENTER_SCALE_DIV as int) as i64,
        g_const: DEFAULT_G_CONST,
    }
}

/// An orbiting body as setup creates it from the random offsets `xr`, `yr`
/// and the random mass `mr`.
pub open spec fn orbiting_body(cx: int, cy: int, xr: int, yr: int, mr: int) -> BodyState {
    BodyState {
        shape: unit_cube(),
        position: Vector3D { x: sat_sub(cx, xr) as i64, y: sat_sub(cy, yr) as i64, z: 0 },
        velocity: Vector3D { x: ORBIT_VEL_X, y: ORBIT_VEL_Y, z: ORBIT_VEL_Z },
        acceleration: zero_vec(),
        spin_velocity: zero_vec(),
        spin_acceleration: zero_vec(),
        mass: mr as i64,
        scale: fp_div(mr, ORBIT_SCALE_DIV as int) as i64,
        g_const: DEFAULT_G_CONST,
    }
}

/// `b` is some body that `add_orbiting_object` could have produced for the
/// center `(cx, cy)`: its offsets and mass lie in the documented ranges.
pub open spec fn is_orbiting_body(b: BodyState, cx: int, cy: int) -> bool {
    exists|xr: int, yr: int, mr: int|
        {
            &&& OFFSET_LO as int <= xr < OFFSET_HI as int
            &&& OFFSET_LO as int <= yr < OFFSET_HI as int
            &&& MASS_LO as int <= mr < MASS_HI as int
            &&& b == orbiting_body(cx, cy, xr, yr, mr)
        }
}

/// The bodies' physical states, in order.
pub open spec fn models_of(s: Seq<Physics>) -> Seq<BodyState> {
    s.map_values(|b: Physics| b@)
}

/// Body `i`'s state after absorbing, in order, the attraction of the
/// snapshot bodies with index below `j` (skipping itself). The displacement
/// of each contribution runs from the body to the snapshot target.
pub open spec fn accum_attraction(b: BodyState, others: Seq<BodyState>, i: int, j: int) -> BodyState
    decreases j,
{
    if j <= 0 {
        b
    } else {
        let prev = accum_attraction(b, others, i, j - 1);
        if j - 1 == i {
            prev
        } else {
            model_attraction(prev, others[j - 1], spec_subtract(others[j - 1].position, prev.position))
        }
    }
}

/// Body `i` after one whole frame: attraction accumulated from every other
/// snapshot body, then one integration step.
pub open spec fn step_body(others: Seq<BodyState>, i: int, dt: int) -> BodyState {
    model_update(accum_attraction(others[i], others, i, others.len() as int), dt)
}

/// A field-for-field copy of the body at `index`: the snapshot the pairwise
/// pass reads.
fn clone_body(objects: &Vec<Physics>, index: usize) -> (r: Physics)
    requires
        index < objects@.len(),
    ensures
        r@ == objects@[index as int]@,
{
    let source: &Physics = &objects[index];
    let mut shape: Vec<Vector3D> = Vec::new();
    let n: usize = source.shape.len();
    let mut k: usize = 0;
    while k < n
        invariant
            k <= n,
            n == source.shape@.len(),
            shape@.len() == k,
            forall|m: int| 0 <= m < k ==> shape@[m] == source.shape@[m],
        decreases n - k,
    {
        let point: Vector3D = source.shape[k];
        shape.push(point);
        k += 1;
    }
    proof {
        assert(shape@ =~= source.shape@);
    }
    Physics {
        shape,
        position: source.position,
        velocity: source.velocity,
        acceleration: source.acceleration,
        spin_velocity: source.spin_velocity,
        spin_acceleration: source.spin_acceleration,
        mass: source.mass,
        scale: source.scale,
        g_const: source.g_const,
    }
}

impl Simulation {
    /// An empty world around the given center point.
    pub fn new(center_x: i64, center_y: i64) -> (r: Simulation)
        ensures
            r.center_x == center_x,
            r.center_y == center_y,
            r.objects@.len() == 0,
    {
        let objects: Vec<Physics> = Vec::new();
        Simulation { center_x, center_y, objects }
    }

    fn get_shape(&self) -> (r: Vec<Vector3D>)
        ensures
            r@ == unit_cube(),
    {
        let mut shape: Vec<Vector3D> = Vec::new();
        shape.push(Vector3D::new(-UNIT, -UNIT, -UNIT));
        shape.push(Vector3D::new(UNIT, -UNIT, -UNIT));
        shape.push(Vector3D::new(UNIT, UNIT, -UNIT));
        shape.push(Vector3D::new(-UNIT, UNIT, -UNIT));
        shape.push(Vector3D::new(-UNIT, -UNIT, UNIT));
        shape.push(Vector3D::new(UNIT, -UNIT, UNIT));
        shape.push(Vector3D::new(UNIT, UNIT, UNIT));
        shape.push(Vector3D::new(-UNIT, UNIT, UNIT));
        proof {
            assert(shape@ =~= unit_cube());
        }
        shape
    }

    /// Add the heavy central body at the configured center.
    pub fn add_center_object(&mut self)
        ensures
            final (self).objects@.len() == old(self).objects@.len() + 1,
            forall|k: int|
                0 <= k < old(self).objects@.len() ==> final (self).objects@[k] == old(
                    self,
                ).objects@[k],
            final (self).objects@.last()@ == center_body(
                old(self).center_x as int,
                old(self).center_y as int,
            ),
            final (self).center_x == old(self).center_x,
            final (self).center_y == old(self).center_y,
    {
        let x: i64 = self.center_x;
        let y: i64 = self.center_y;
        let mass: i64 = CENTER_MASS;
        let shape: Vec<Vector3D> = self.get_shape();
        let scale: i64 = fp_div_i64(mass, CENTER_SCALE_DIV);

        let mut shape_body: Physics = Physics::new(shape);
        shape_body.set_position(x, y, 0);
        shape_body.set_mass(mass);
        shape_body.set_scale(scale);
        shape_body.set_spin_velocity(0, 0, 0);
        self.objects.push(shape_body);
    }

    /// Add one orbiting body: a random offset from the center, a random
    /// mass, the stock initial velocity.
    pub fn add_orbiting_object(&mut self)
        ensures
            final (self).objects@.len() == old(self).objects@.len() + 1,
            forall|k: int|
                0 <= k < old(self).objects@.len() ==> final (self).objects@[k] == old(
                    self,
                ).objects@[k],
            is_orbiting_body(
                final (self).objects@.last()@,
                old(self).center_x as int,
                old(self).center_y as int,
            ),
            final (self).center_x == old(self).center_x,
            final (self).center_y == old(self).center_y,
    {
        let mut rng = new_rng();
        let x_rnd: i64 = gen_range_i64(&mut rng, OFFSET_LO, OFFSET_HI);
        let y_rnd: i64 = gen_range_i64(&mut rng, OFFSET_LO, OFFSET_HI);

        let x: i64 = sat_sub_i64(self.center_x, x_rnd);
        let y: i64 = sat_sub_i64(self.center_y, y_rnd);

        let mass: i64 = gen_range_i64(&mut rng, MASS_LO, MASS_HI);
        let shape: Vec<Vector3D> = self.get_shape();
        let scale: i64 = fp_div_i64(mass, ORBIT_SCALE_DIV);

        let mut shape_body: Physics = Physics::new(shape);
        shape_body.set_position(x, y, 0);
        shape_body.set_velocity(ORBIT_VEL_X, ORBIT_VEL_Y, ORBIT_VEL_Z);
        shape_body.set_mass(mass);
        shape_body.set_scale(scale);
        proof {
            assert(shape_body@ == orbiting_body(
                old(self).center_x as int,
                old(self).center_y as int,
                x_rnd as int,
                y_rnd as int,
                mass as int,
            ));
        }
        self.objects.push(shape_body);
    }

    /// Populate the world: one central body, then the full count of
    /// orbiting bodies.
    pub fn setup_objects(&mut self)
        ensures
            final (self).objects@.len() == old(self).objects@.len() + 1 + ORBIT_COUNT,
            forall|k: int|
                0 <= k < old(self).objects@.len() ==> final (self).objects@[k] == old(
                    self,
                ).objects@[k],
            final (self).objects@[old(self).objects@.len() as int]@ == center_body(
                old(self).center_x as int,
                old(self).center_y as int,
            ),
            forall|k: int|
                old(self).objects@.len() + 1 <= k < final (self).objects@.len()
                    ==> is_orbiting_body(
                    final (self).objects@[k]@,
                    old(self).center_x as int,
                    old(self).center_y as int,
                ),
            final (self).center_x == old(self).center_x,
            final (self).center_y == old(self).center_y,
    {
        let ghost base = old(self).objects@.len() as int;
        self.add_center_object();

        let mut added: usize = 0;
        while added < ORBIT_COUNT
            invariant
                added <= ORBIT_COUNT,
                self.center_x == old(self).center_x,
                self.center_y == old(self).center_y,
                base == old(self).objects@.len() as int,
                self.objects@.len() == base + 1 + added,
                forall|k: int| 0 <= k < base ==> self.objects@[k] == old(self).objects@[k],
                self.objects@[base]@ == center_body(
                    old(self).center_x as int,
                    old(self).center_y as int,
                ),
                forall|k: int|
                    base + 1 <= k < self.objects@.len() ==> is_orbiting_body(
                        self.objects@[k]@,
                        old(self).center_x as int,
                        old(self).center_y as int,
                    ),
            decreases ORBIT_COUNT - added,
        {
            self.add_orbiting_object();
            added += 1;
        }
    }

    /// One frame of simulation: every body absorbs the attraction of every
    /// other body, read from the pre-step snapshot, and is then integrated
    /// by `timestep`. Collision handling is not wired into this loop; the
    /// pairwise `apply_forces` carries it for callers that want both.
    pub fn compute_objects(&mut self, timestep: i64)
        ensures
            final (self).objects@.len() == old(self).objects@.len(),
            forall|i: int|
                0 <= i < old(self).objects@.len() ==> final (self).objects@[i]@ == step_body(
                    models_of(old(self).objects@),
                    i,
                    timestep as int,
                ),
            final (self).center_x == old(self).center_x,
            final (self).center_y == old(self).center_y,
    {
        let ghost ms = models_of(old(self).objects@);
        let n: usize = self.objects.len();
        let mut updated: Vec<Physics> = Vec::new();
        let mut i: usize = 0;
        while i < n
            invariant
                i <= n,
                n == self.objects@.len(),
                *self == *old(self),
                ms == models_of(old(self).objects@),
                updated@.len() == i,
                forall|k: int|
                    0 <= k < i ==> updated@[k]@ == step_body(ms, k, timestep as int),
            decreases n - i,
        {
            let mut body: Physics = clone_body(&self.objects, i);
            proof {
                assert(ms[i as int] == old(self).objects@[i as int]@);
            }
            let mut j: usize = 0;
            while j < n
                invariant
                    j <= n,
                    i < n,
                    n == self.objects@.len(),
                    *self == *old(self),
                    ms == models_of(old(self).objects@),
                    body@ == accum_attraction(ms[i as int], ms, i as int, j as int),
                decreases n - j,
            {
                if j != i {
                    let mut target: Physics = clone_body(&self.objects, j);
                    proof {
                        assert(ms[j as int] == old(self).objects@[j as int]@);
                    }
                    let tts: Vector3D = target.position.subtract_vector(body.position);
                    body.apply_attraction(&mut target, tts);
                }
                j += 1;
            }
            body.update(timestep);
            updated.push(body);
            i += 1;
        }
        self.objects = updated;
    }

    /// The polygon point list of the body at `index`, ready for the
    /// renderer: every local shape vertex translated by the body's
    /// position. Projection to the screen is simply dropping `z`, and is
    /// the renderer's business.
    pub fn object_points(&self, index: usize) -> (r: Vec<Vector3D>)
        requires
            index < self.objects@.len(),
        ensures
            r@ == self.objects@[index as int]@.shape.map_values(
                |p: Vector3D| spec_add(p, self.objects@[index as int]@.position),
            ),
    {
        let body: &Physics = &self.objects[index];
        let mut points: Vec<Vector3D> = Vec::new();
        let n: usize = body.shape.len();
        let mut k: usize = 0;
        while k < n
            invariant
                k <= n,
                n == body.shape@.len(),
                points@.len() == k,
                forall|m: int|
                    0 <= m < k ==> points@[m] == spec_add(body.shape@[m], body.position),
            decreases n - k,
        {
            let point: Vector3D = body.shape[k];
            points.push(point.add_vector(body.position));
            k += 1;
        }
        proof {
            assert(points@ =~= body.shape@.map_values(
                |p: Vector3D| spec_add(p, self.objects@[index as int]@.position),
            ));
        }
        points
    }
}

} // verus!
