use orbit_sim::fixed::UNIT;
use orbit_sim::vector_3d::Vector3D;

const U: i64 = UNIT;

#[test]
fn new_keeps_components() {
    let v = Vector3D::new(1, -2, 3);
    assert_eq!(v.x, 1);
    assert_eq!(v.y, -2);
    assert_eq!(v.z, 3);
}

#[test]
fn multiply_is_componentwise() {
    let v = Vector3D::new(2 * U, -3 * U, 500_000);
    let r = v.multiply(2 * U);
    assert_eq!(r, Vector3D::new(4 * U, -6 * U, U));
}

#[test]
fn divide_is_componentwise() {
    let v = Vector3D::new(4 * U, -6 * U, U);
    let r = v.divide(2 * U);
    assert_eq!(r, Vector3D::new(2 * U, -3 * U, 500_000));
}

#[test]
fn divide_by_zero_saturates() {
    let v = Vector3D::new(U, -U, 0);
    let r = v.divide(0);
    assert_eq!(r.x, i64::MAX);
    assert_eq!(r.y, i64::MIN);
    assert_eq!(r.z, 0);
}

#[test]
fn add_and_subtract() {
    let a = Vector3D::new(U, 2 * U, -3 * U);
    let b = Vector3D::new(10, -20, 30);
    assert_eq!(a.add_vector(b), Vector3D::new(U + 10, 2 * U - 20, -3 * U + 30));
    assert_eq!(a.subtract_vector(b), Vector3D::new(U - 10, 2 * U + 20, -3 * U - 30));
}

#[test]
fn saturating_add_caps_at_extremes() {
    let a = Vector3D::new(i64::MAX, i64::MIN, 0);
    let b = Vector3D::new(U, -U, 0);
    let r = a.add_vector(b);
    assert_eq!(r.x, i64::MAX);
    assert_eq!(r.y, i64::MIN);
}

#[test]
fn length_of_three_four_zero_is_five() {
    let v = Vector3D::new(3 * U, 4 * U, 0);
    assert_eq!(v.get_length_squared(), 25 * U);
    assert_eq!(v.get_length(), 5 * U);
}

#[test]
fn length_of_zero_vector_is_exactly_zero() {
    let v = Vector3D::new(0, 0, 0);
    assert_eq!(v.get_length_squared(), 0);
    assert_eq!(v.get_length(), 0);
}

#[test]
fn normalize_zero_vector_is_zero() {
    let v = Vector3D::new(0, 0, 0);
    assert_eq!(v.normalize(), Vector3D::new(0, 0, 0));
    assert_eq!(v.normalize().get_length(), 0);
}

#[test]
fn normalize_exact_pythagorean_has_unit_length() {
    let v = Vector3D::new(3 * U, 4 * U, 0);
    let n = v.normalize();
    assert_eq!(n, Vector3D::new(600_000, 800_000, 0));
    assert_eq!(n.get_length(), U);
}

#[test]
fn normalize_length_is_one_within_tolerance() {
    for v in [
        Vector3D::new(U, U, U),
        Vector3D::new(7 * U, -2 * U, 11 * U),
        Vector3D::new(-123_456_789, 987_654_321, 5),
        Vector3D::new(45 * U, 45 * U, 0),
    ] {
        // Each component loses up to one fixed-point step to truncation,
        // so the length can fall a few steps short of one unit.
        let len = v.normalize().get_length();
        assert!((len - U).abs() <= 5, "length {len} strays from one unit");
    }
}

#[test]
fn multiply_divide_round_trip_is_exact_without_rounding() {
    let v = Vector3D::new(2 * U, -3 * U, 5 * U);
    let s = 4 * U;
    assert_eq!(v.multiply(s).divide(s), v);
}

#[test]
fn multiply_divide_round_trip_within_tolerance() {
    let v = Vector3D::new(1, -999_999, 123_457);
    let s = 7;
    let r = v.multiply(s).divide(s);
    let tol = U / 7 + 1;
    assert!((r.x - v.x).abs() <= tol);
    assert!((r.y - v.y).abs() <= tol);
    assert!((r.z - v.z).abs() <= tol);
}

#[test]
fn dot_product_exact() {
    let a = Vector3D::new(U, 2 * U, 3 * U);
    let b = Vector3D::new(4 * U, 5 * U, 6 * U);
    assert_eq!(a.dot_product(b), 32 * U);
}

#[test]
fn cross_product_exact() {
    let a = Vector3D::new(U, 2 * U, 3 * U);
    let b = Vector3D::new(4 * U, 5 * U, 6 * U);
    assert_eq!(a.cross_product(b), Vector3D::new(-3 * U, 6 * U, -3 * U));
}

#[test]
fn set_magnitude_scales_length() {
    let v = Vector3D::new(3 * U, 4 * U, 0);
    let r = v.set_magnitude(10 * U);
    assert_eq!(r, Vector3D::new(6 * U, 8 * U, 0));
    assert_eq!(r.get_length(), 10 * U);
}

#[test]
fn set_magnitude_preserves_direction() {
    let v = Vector3D::new(3 * U, 4 * U, 0);
    let r = v.set_magnitude(10 * U);
    assert_eq!(r.normalize(), v.normalize());
}

#[test]
fn set_magnitude_never_flips_component_signs() {
    let v = Vector3D::new(-7 * U, 3, -1);
    let r = v.set_magnitude(2 * U);
    assert!(r.x * v.x >= 0);
    assert!(r.y * v.y >= 0);
    assert!(r.z * v.z >= 0);
}

#[test]
fn set_magnitude_of_zero_vector_returns_self_verbatim() {
    let v = Vector3D::new(0, 0, 0);
    assert_eq!(v.set_magnitude(5 * U), v);
}
