//! Three-component fixed-point vectors.
//!
//! A value type: every operation returns a new vector and mutates nothing.
//! Components are fixed-point scalars as defined in [`crate::fixed`].

use vstd::prelude::*;
use crate::fixed::{
    UNIT, abs_val, clip, fp_div, fp_mul, fp_div_i64, fp_mul_i64, isqrt_u128, lemma_abs_mul,
    lemma_quot_of_multiple, lemma_quot_divisible, lemma_sqrt_floor_unique, quot, sat_add, sat_sub,
    sat_add_i64, sat_sub_i64, sqrt_floor,
};

verus! {

/// A vector of three fixed-point scalars.
#[derive(Clone, Copy, Debug, PartialEq, Eq, Structural)]
pub struct Vector3D {
    pub x: i64,
    pub y: i64,
    pub z: i64,
}

/// The zero vector.
pub open spec fn zero_vec() -> Vector3D {
    Vector3D { x: 0, y: 0, z: 0 }
}

/// Componentwise fixed-point scaling.
pub open spec fn spec_multiply(v: Vector3D, num: int) -> Vector3D {
    Vector3D {
        x: fp_mul(v.x as int, num) as i64,
        y: fp_mul(v.y as int, num) as i64,
        z: fp_mul(v.z as int, num) as i64,
    }
}

/// Componentwise fixed-point division.
pub open spec fn spec_divide(v: Vector3D, num: int) -> Vector3D {
    Vector3D {
        x: fp_div(v.x as int, num) as i64,
        y: fp_div(v.y as int, num) as i64,
        z: fp_div(v.z as int, num) as i64,
    }
}

/// Componentwise saturating sum.
pub open spec fn spec_add(a: Vector3D, b: Vector3D) -> Vector3D {
    Vector3D {
        x: sat_add(a.x as int, b.x as int) as i64,
        y: sat_add(a.y as int, b.y as int) as i64,
        z: sat_add(a.z as int, b.z as int) as i64,
    }
}

/// Componentwise saturating difference.
pub open spec fn spec_subtract(a: Vector3D, b: Vector3D) -> Vector3D {
    Vector3D {
        x: sat_sub(a.x as int, b.x as int) as i64,
        y: sat_sub(a.y as int, b.y as int) as i64,
        z: sat_sub(a.z as int, b.z as int) as i64,
    }
}

/// Sum of the squares of the components, in fixed point.
pub open spec fn spec_length_squared(v: Vector3D) -> int {
    sat_add(
        sat_add(fp_mul(v.x as int, v.x as int), fp_mul(v.y as int, v.y as int)),
        fp_mul(v.z as int, v.z as int),
    )
}

/// Euclidean length in fixed point: exactly zero for the zero length square,
/// otherwise the rounded-down square root of the rescaled length square.
pub open spec fn spec_length(v: Vector3D) -> int {
    if spec_length_squared(v) == 0 {
        0
    } else {
        sqrt_floor(spec_length_squared(v) * (UNIT as int))
    }
}

/// Direction of `v` at unit length; the zero vector stays the zero vector.
pub open spec fn spec_normalize(v: Vector3D) -> Vector3D {
    if spec_length(v) == 0 {
        zero_vec()
    } else {
        spec_divide(v, spec_length(v))
    }
}

/// Fixed-point dot product.
pub open spec fn spec_dot(a: Vector3D, b: Vector3D) -> int {
    sat_add(
        sat_add(fp_mul(a.x as int, b.x as int), fp_mul(a.y as int, b.y as int)),
        fp_mul(a.z as int, b.z as int),
    )
}

/// Fixed-point cross product.
pub open spec fn spec_cross(a: Vector3D, b: Vector3D) -> Vector3D {
    Vector3D {
        x: sat_sub(fp_mul(a.y as int, b.z as int), fp_mul(a.z as int, b.y as int)) as i64,
        y: sat_sub(fp_mul(a.z as int, b.x as int), fp_mul(a.x as int, b.z as int)) as i64,
        z: sat_sub(fp_mul(a.x as int, b.y as int), fp_mul(a.y as int, b.x as int)) as i64,
    }
}

/// `v` rescaled so that its length becomes `magnitude`; a vector of length
/// zero is returned verbatim (not replaced by the zero vector).
pub open spec fn spec_set_magnitude(v: Vector3D, magnitude: int) -> Vector3D {
    if spec_length(v) == 0 {
        v
    } else {
        Vector3D {
            x: fp_mul(fp_div(v.x as int, spec_length(v)), magnitude) as i64,
            y: fp_mul(fp_div(v.y as int, spec_length(v)), magnitude) as i64,
            z: fp_mul(fp_div(v.z as int, spec_length(v)), magnitude) as i64,
        }
    }
}

/// Scaling any vector by the scalar zero gives exactly the zero vector.
pub proof fn lemma_multiply_by_zero(v: Vector3D)
    ensures
        spec_multiply(v, 0) == zero_vec(),
{
    crate::fixed::lemma_fp_mul_zero(v.x as int);
    crate::fixed::lemma_fp_mul_zero(v.y as int);
    crate::fixed::lemma_fp_mul_zero(v.z as int);
}

/// The length square of any vector is nonnegative.
pub proof fn lemma_length_squared_nonneg(v: Vector3D)
    ensures
        spec_length_squared(v) >= 0,
{
    lemma_abs_mul(v.x as int, v.x as int);
    lemma_abs_mul(v.y as int, v.y as int);
    lemma_abs_mul(v.z as int, v.z as int);
}

impl Vector3D {
    /// Build a vector from its three fixed-point components.
    pub fn new(x: i64, y: i64, z: i64) -> (r: Vector3D)
        ensures
            r == (Vector3D { x, y, z }),
    {
        Vector3D { x, y, z }
    }

    /// Scale every component by the fixed-point scalar `num`.
    pub fn multiply(&self, num: i64) -> (r: Vector3D)
        ensures
            r == spec_multiply(*self, num as int),
    {
        Vector3D::new(fp_mul_i64(self.x, num), fp_mul_i64(self.y, num), fp_mul_i64(self.z, num))
    }

    /// Divide every component by the fixed-point scalar `num`.
    pub fn divide(&self, num: i64) -> (r: Vector3D)
        ensures
            r == spec_divide(*self, num as int),
    {
        Vector3D::new(fp_div_i64(self.x, num), fp_div_i64(self.y, num), fp_div_i64(self.z, num))
    }

    /// Componentwise sum.
    pub fn add_vector(&self, vec: Vector3D) -> (r: Vector3D)
        ensures
            r == spec_add(*self, vec),
    {
        Vector3D::new(
            sat_add_i64(self.x, vec.x),
            sat_add_i64(self.y, vec.y),
            sat_add_i64(self.z, vec.z),
        )
    }

    /// Componentwise difference.
    pub fn subtract_vector(&self, vec: Vector3D) -> (r: Vector3D)
        ensures
            r == spec_subtract(*self, vec),
    {
        Vector3D::new(
            sat_sub_i64(self.x, vec.x),
            sat_sub_i64(self.y, vec.y),
            sat_sub_i64(self.z, vec.z),
        )
    }

    /// Sum of the squared components.
    pub fn get_length_squared(&self) -> (r: i64)
        ensures
            r as int == spec_length_squared(*self),
            r >= 0,
    {
        proof {
            lemma_length_squared_nonneg(*self);
        }
        sat_add_i64(
            sat_add_i64(fp_mul_i64(self.x, self.x), fp_mul_i64(self.y, self.y)),
            fp_mul_i64(self.z, self.z),
        )
    }

    /// Euclidean length, exactly zero when the length square is zero.
    pub fn get_length(&self) -> (r: i64)
        ensures
            r as int == spec_length(*self),
            r >= 0,
    {
        let length_squared: i64 = self.get_length_squared();
        if length_squared == 0 {
            return 0;
        }
        let n: u128 = (length_squared as u128) * (UNIT as u128);
        let root: u128 = isqrt_u128(n);
        proof {
            assert(root < 0x40000000000u128) by (nonlinear_arith)
                requires
                    (root as int) * (root as int) <= n as int,
                    n as int <= 9_223_372_036_854_775_807int * 1_000_000,
            ;
            lemma_sqrt_floor_unique(n as int, root as int);
        }
        root as i64
    }

    /// The direction of the vector at unit length; the zero vector is
    /// returned unchanged instead of dividing by zero.
    pub fn normalize(&self) -> (r: Vector3D)
        ensures
            r == spec_normalize(*self),
    {
        let length: i64 = self.get_length();
        if length == 0 {
            return Vector3D::new(0, 0, 0);
        }
        Vector3D::new(
            fp_div_i64(self.x, length),
            fp_div_i64(self.y, length),
            fp_div_i64(self.z, length),
        )
    }

    /// Fixed-point dot product.
    pub fn dot_product(&self, vec: Vector3D) -> (r: i64)
        ensures
            r as int == spec_dot(*self, vec),
    {
        sat_add_i64(
            sat_add_i64(fp_mul_i64(self.x, vec.x), fp_mul_i64(self.y, vec.y)),
            fp_mul_i64(self.z, vec.z),
        )
    }

    /// Fixed-point cross product.
    pub fn cross_product(&self, vec: Vector3D) -> (r: Vector3D)
        ensures
            r == spec_cross(*self, vec),
    {
        let x: i64 = sat_sub_i64(fp_mul_i64(self.y, vec.z), fp_mul_i64(self.z, vec.y));
        let y: i64 = sat_sub_i64(fp_mul_i64(self.z, vec.x), fp_mul_i64(self.x, vec.z));
        let z: i64 = sat_sub_i64(fp_mul_i64(self.x, vec.y), fp_mul_i64(self.y, vec.x));
        Vector3D::new(x, y, z)
    }

    /// Keep the direction but rescale the length to `magnitude`; a vector of
    /// length zero is returned verbatim.
    pub fn set_magnitude(&self, magnitude: i64) -> (r: Vector3D)
        ensures
            r == spec_set_magnitude(*self, magnitude as int),
    {
        let length: i64 = self.get_length();
        let mut x: i64 = self.x;
        let mut y: i64 = self.y;
        let mut z: i64 = self.z;
        if length != 0 {
            x = fp_mul_i64(fp_div_i64(self.x, length), magnitude);
            y = fp_mul_i64(fp_div_i64(self.y, length), magnitude);
            z = fp_mul_i64(fp_div_i64(self.z, length), magnitude);
        }
        Vector3D::new(x, y, z)
    }
}

/// Rescaling a vector to a nonnegative magnitude never flips the sign of a
/// component: the result points into the same octant as the input. This is
/// the part of direction preservation that survives fixed-point rounding;
/// the full statement — normalized result equals normalized input — holds
/// only up to rounding and is exercised by tests.
pub proof fn lemma_set_magnitude_keeps_component_signs(v: Vector3D, magnitude: int)
    requires
        magnitude >= 0,
        spec_length(v) > 0,
    ensures
        (spec_set_magnitude(v, magnitude).x as int) * (v.x as int) >= 0,
        (spec_set_magnitude(v, magnitude).y as int) * (v.y as int) >= 0,
        (spec_set_magnitude(v, magnitude).z as int) * (v.z as int) >= 0,
{
    lemma_scaled_component_sign(v.x as int, spec_length(v), magnitude);
    lemma_scaled_component_sign(v.y as int, spec_length(v), magnitude);
    lemma_scaled_component_sign(v.z as int, spec_length(v), magnitude);
}

proof fn lemma_quot_sign(a: int, b: int)
    requires
        b > 0,
    ensures
        a >= 0 ==> quot(a, b) >= 0,
        a <= 0 ==> quot(a, b) <= 0,
{
    vstd::arithmetic::div_mod::lemma_div_pos_is_pos(abs_val(a), abs_val(b));
}

proof fn lemma_scaled_component_sign(c: int, l: int, m: int)
    requires
        l > 0,
        m >= 0,
        i64::MIN <= c <= i64::MAX,
    ensures
        fp_mul(fp_div(c, l), m) * c >= 0,
{
    let u = UNIT as int;
    lemma_abs_mul(c, u);
    lemma_quot_sign(c * u, l);
    let d = fp_div(c, l);
    lemma_abs_mul(d, m);
    lemma_quot_sign(d * m, u);
    let r = fp_mul(d, m);
    if c >= 0 {
        assert(c * u >= 0) by (nonlinear_arith)
            requires
                c >= 0,
                u > 0,
        ;
        assert(d >= 0);
        assert(d * m >= 0) by (nonlinear_arith)
            requires
                d >= 0,
                m >= 0,
        ;
        assert(r >= 0);
        assert(r * c >= 0) by (nonlinear_arith)
            requires
                r >= 0,
                c >= 0,
        ;
    } else {
        assert(c * u <= 0) by (nonlinear_arith)
            requires
                c <= 0,
                u > 0,
        ;
        assert(d <= 0);
        assert(d * m <= 0) by (nonlinear_arith)
            requires
                d <= 0,
                m >= 0,
        ;
        assert(r <= 0);
        assert(r * c >= 0) by (nonlinear_arith)
            requires
                r <= 0,
                c <= 0,
        ;
    }
}

/// Normalizing the zero vector gives the zero vector, whose length is
/// exactly zero: no division by zero ever happens.
pub proof fn lemma_normalize_zero()
    ensures
        spec_normalize(zero_vec()) == zero_vec(),
        spec_length(zero_vec()) == 0,
{
    lemma_abs_mul(0, 0);
}

/// Scaling by `s` and dividing by `s` again recovers the vector exactly
/// whenever the scaled components lose nothing to the fixed-point rounding
/// and no component saturates.
pub proof fn lemma_multiply_divide_round_trip(v: Vector3D, s: i64)
    requires
        s != 0,
        (v.x as int * s as int) % (UNIT as int) == 0,
        (v.y as int * s as int) % (UNIT as int) == 0,
        (v.z as int * s as int) % (UNIT as int) == 0,
        abs_val(v.x as int * s as int) <= i64::MAX,
        abs_val(v.y as int * s as int) <= i64::MAX,
        abs_val(v.z as int * s as int) <= i64::MAX,
    ensures
        spec_divide(spec_multiply(v, s as int), s as int) == v,
{
    lemma_component_round_trip(v.x as int, s as int);
    lemma_component_round_trip(v.y as int, s as int);
    lemma_component_round_trip(v.z as int, s as int);
}

proof fn lemma_component_round_trip(c: int, s: int)
    requires
        s != 0,
        (c * s) % (UNIT as int) == 0,
        abs_val(c * s) <= i64::MAX,
        i64::MIN <= c <= i64::MAX,
    ensures
        fp_div(fp_mul(c, s), s) == c,
{
    let u = UNIT as int;
    lemma_quot_divisible(c * s, u);
    let m = (c * s) / u;
    assert(u * m == c * s);
    lemma_abs_mul(u, m);
    assert(u * abs_val(m) == abs_val(c * s));
    assert(abs_val(m) <= i64::MAX);
    assert(clip(m) == m);
    assert(fp_mul(c, s) == m);
    assert(m * u == c * s) by {
        vstd::arithmetic::mul::lemma_mul_is_commutative(u, m);
    }
    lemma_quot_of_multiple(c, s);
    assert(fp_div(m, s) == clip(quot(m * u, s)));
    assert(clip(c) == c);
}

} // verus!
