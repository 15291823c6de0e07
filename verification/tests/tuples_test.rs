use rtxch_lib::fx::SCALE;
use rtxch_lib::fx::EPSILON;
use rtxch_lib::fx::fx_sqrt;
use rtxch_lib::fx::fx_floor;
use rtxch_lib::fx::fx_mul;
use rtxch_lib::fx::fx_div;
use rtxch_lib::Tuples;

#[test]
fn point_and_vector_tags() {
    let p = Tuples::point(SCALE, 2 * SCALE, 3 * SCALE);
    assert!(p.is_point());
    assert!(!p.is_vector());
    assert_eq!(p.w, SCALE);
    let v = Tuples::vector(SCALE, 2 * SCALE, 3 * SCALE);
    assert!(v.is_vector());
    assert_eq!(v.w, 0);
}

#[test]
fn add_subtract_negate() {
    let mut a = Tuples::new(3 * SCALE, -2 * SCALE, 5 * SCALE, SCALE);
    let b = Tuples::new(-2 * SCALE, 3 * SCALE, SCALE, 0);
    let sum = a.add(&b);
    assert_eq!(sum.x, SCALE);
    assert_eq!(sum.y, SCALE);
    assert_eq!(sum.z, 6 * SCALE);
    assert_eq!(sum.w, SCALE);

    let mut p1 = Tuples::point(3 * SCALE, 2 * SCALE, SCALE);
    let p2 = Tuples::point(5 * SCALE, 6 * SCALE, 7 * SCALE);
    let d = p1.subtract(&p2);
    assert_eq!(d.x, -2 * SCALE);
    assert_eq!(d.y, -4 * SCALE);
    assert_eq!(d.z, -6 * SCALE);

    let mut n = Tuples::new(SCALE, -2 * SCALE, 3 * SCALE, -4 * SCALE);
    let neg = n.negate();
    assert_eq!(neg.x, -SCALE);
    assert_eq!(neg.y, 2 * SCALE);
    assert_eq!(neg.z, -3 * SCALE);
    assert_eq!(neg.w, 4 * SCALE);
}

#[test]
fn scale_and_hadamard() {
    let mut a = Tuples::new(SCALE, -2 * SCALE, 3 * SCALE, -4 * SCALE);
    let s = a.scale(3_500_000);
    assert_eq!(s.x, 3_500_000);
    assert_eq!(s.y, -7_000_000);
    assert_eq!(s.z, 10_500_000);
    assert_eq!(s.w, -14_000_000);

    let mut c1 = Tuples::color(SCALE, 200_000, 400_000);
    let c2 = Tuples::color(900_000, SCALE, 100_000);
    let prod = c1.multiply(&c2);
    assert_eq!(prod.x, 900_000);
    assert_eq!(prod.y, 200_000);
    assert_eq!(prod.z, 40_000);
}

#[test]
fn dot_and_cross() {
    let a = Tuples::vector(SCALE, 2 * SCALE, 3 * SCALE);
    let b = Tuples::vector(2 * SCALE, 3 * SCALE, 4 * SCALE);
    assert_eq!(Tuples::dot(&a, &b), 20 * SCALE);
    let c = Tuples::cross(&a, &b);
    assert_eq!(c.x, -SCALE);
    assert_eq!(c.y, 2 * SCALE);
    assert_eq!(c.z, -SCALE);
    let c2 = Tuples::cross(&b, &a);
    assert_eq!(c2.x, SCALE);
    assert_eq!(c2.y, -2 * SCALE);
    assert_eq!(c2.z, SCALE);
}

#[test]
fn magnitude_and_normalize() {
    let mut v = Tuples::vector(SCALE, 0, 0);
    assert_eq!(v.magnitude(), SCALE);
    let mut v2 = Tuples::vector(SCALE, 2 * SCALE, 3 * SCALE);
    // sqrt(14) = 3.741657...
    let m = v2.magnitude();
    assert!((m - 3_741_657).abs() < EPSILON);
    let mut v3 = Tuples::vector(4 * SCALE, 0, 0);
    let n = v3.normalize();
    assert_eq!(n.x, SCALE);
    assert_eq!(n.y, 0);
    assert_eq!(n.z, 0);
    // a zero vector has no direction and stays unchanged
    let mut z = Tuples::vector(0, 0, 0);
    let zn = z.normalize();
    assert_eq!(zn.x, 0);
    assert_eq!(zn.z, 0);
}

#[test]
fn normalize_short_vectors_to_unit_length() {
    // 0.0011 along x: well below one unit, yet the result is exactly unit
    let mut v = Tuples::vector(1_100, 0, 0);
    let n = v.normalize();
    assert_eq!(n.x, SCALE);
    assert_eq!(n.y, 0);
    assert_eq!(n.z, 0);
    // a small 3-4-5 triangle normalizes to (0.6, 0.8, 0) exactly
    let mut v2 = Tuples::vector(3_000, 4_000, 0);
    let n2 = v2.normalize();
    assert_eq!(n2.x, 600_000);
    assert_eq!(n2.y, 800_000);
    // the squared length of any normalized vector is within tolerance of one
    let mut v3 = Tuples::vector(123, -456, 789);
    let n3 = v3.normalize();
    let mut m3 = n3.clone();
    let mag = m3.magnitude();
    assert!((mag - SCALE).abs() < 2 * EPSILON, "magnitude {mag}");
}

#[test]
fn reflect_at_45_degrees() {
    let v = Tuples::vector(SCALE, -SCALE, 0);
    let n = Tuples::vector(0, SCALE, 0);
    let r = Tuples::reflect(&v, &n);
    assert_eq!(r.x, SCALE);
    assert_eq!(r.y, SCALE);
    assert_eq!(r.z, 0);
}

#[test]
fn fx_sqrt_exact_values() {
    assert_eq!(fx_sqrt(4 * SCALE), 2 * SCALE);
    assert_eq!(fx_sqrt(9 * SCALE), 3 * SCALE);
    assert_eq!(fx_sqrt(0), 0);
    assert_eq!(fx_sqrt(-5), 0);
    // sqrt(2) truncated at the micro-unit
    assert_eq!(fx_sqrt(2 * SCALE), 1_414_213);
}

#[test]
fn fx_floor_and_arithmetic() {
    assert_eq!(fx_floor(2_500_000), 2);
    assert_eq!(fx_floor(-2_500_000), -3);
    assert_eq!(fx_floor(-2_000_000), -2);
    assert_eq!(fx_mul(2_500_000, 2_000_000), 5_000_000);
    assert_eq!(fx_div(SCALE, 2 * SCALE), 500_000);
    assert_eq!(fx_div(-7_000_000, 2_000_000), -3_500_000);
}

#[test]
fn approximate_equality() {
    let a = Tuples::point(SCALE, SCALE, SCALE);
    let b = Tuples::point(SCALE + EPSILON - 1, SCALE, SCALE);
    assert!(a.is_equal(&b));
    let c = Tuples::point(SCALE + EPSILON, SCALE, SCALE);
    assert!(!a.is_equal(&c));
}
