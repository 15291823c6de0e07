use rtxch_lib::fx::SCALE;
use rtxch_lib::fx::EPSILON;
use rtxch_lib::Matrix;
use rtxch_lib::matrices::MatrixError;
use rtxch_lib::Tuples;

fn fx(v: f64) -> i64 {
    (v * SCALE as f64).round() as i64
}

fn from(vals: &[f64]) -> Matrix {
    let v: Vec<i64> = vals.iter().map(|x| fx(*x)).collect();
    Matrix::from_values(&v)
}

#[test]
fn identity_and_get_set() {
    let m = Matrix::new(4);
    assert_eq!(m.dim(), 4);
    assert_eq!(m.get(0, 0), SCALE);
    assert_eq!(m.get(0, 1), 0);
    assert_eq!(m.get(3, 3), SCALE);
    let mut m2 = Matrix::new(2);
    m2.set(0, 1, 42);
    assert_eq!(m2.get(0, 1), 42);
    assert_eq!(m2.get(0, 0), SCALE);
}

#[test]
fn matrix_multiplication() {
    let a = from(&[1.0, 2.0, 3.0, 4.0, 5.0, 6.0, 7.0, 8.0, 9.0, 8.0, 7.0, 6.0, 5.0, 4.0, 3.0, 2.0]);
    let b = from(&[-2.0, 1.0, 2.0, 3.0, 3.0, 2.0, 1.0, -1.0, 4.0, 3.0, 6.0, 5.0, 1.0, 2.0, 7.0, 8.0]);
    let c = Matrix::mul(&a, &b);
    let expected = from(&[
        20.0, 22.0, 50.0, 48.0,
        44.0, 54.0, 114.0, 108.0,
        40.0, 58.0, 110.0, 102.0,
        16.0, 26.0, 46.0, 42.0,
    ]);
    assert!(c.is_equal(&expected));
}

#[test]
fn matrix_times_tuple() {
    let a = from(&[1.0, 2.0, 3.0, 4.0, 2.0, 4.0, 4.0, 2.0, 8.0, 6.0, 4.0, 1.0, 0.0, 0.0, 0.0, 1.0]);
    let t = Tuples::new(fx(1.0), fx(2.0), fx(3.0), fx(1.0));
    let r = Matrix::mul_tuple(&a, &t);
    assert_eq!(r.x, fx(18.0));
    assert_eq!(r.y, fx(24.0));
    assert_eq!(r.z, fx(33.0));
    assert_eq!(r.w, fx(1.0));
}

#[test]
fn determinant_of_4x4() {
    let a = from(&[
        -2.0, -8.0, 3.0, 5.0,
        -3.0, 1.0, 7.0, 3.0,
        1.0, 2.0, -9.0, 6.0,
        -6.0, 7.0, 7.0, -9.0,
    ]);
    let d = Matrix::det(&a);
    assert!((d - fx(-4071.0)).abs() < EPSILON);
}

#[test]
fn transpose_twice_gives_back_the_matrix() {
    let a = from(&[0.0, 9.0, 3.0, 0.0, 9.0, 8.0, 0.0, 8.0, 1.0, 8.0, 5.0, 3.0, 0.0, 0.0, 5.0, 8.0]);
    let t = Matrix::transpose(&a);
    assert_eq!(t.get(0, 1), fx(9.0));
    assert_eq!(t.get(1, 0), fx(9.0));
    let tt = Matrix::transpose(&t);
    assert!(tt.is_equal(&a));
    assert_eq!(tt.get(2, 3), a.get(2, 3));
}

#[test]
fn inverse_times_matrix_is_identity() {
    let a = from(&[
        3.0, -9.0, 7.0, 3.0,
        3.0, -8.0, 2.0, -9.0,
        -4.0, 4.0, 4.0, 1.0,
        -6.0, 5.0, -1.0, 1.0,
    ]);
    let inv = Matrix::inverse(&a).unwrap();
    let product = Matrix::mul(&inv, &a);
    let identity = Matrix::new(4);
    // entries agree with the identity within a few micro-units of rounding
    for row in 0..4 {
        for col in 0..4 {
            let diff = (product.get(row, col) - identity.get(row, col)).abs();
            assert!(diff < 5 * EPSILON, "entry ({row},{col}) off by {diff}");
        }
    }
}

#[test]
fn inverse_of_transpose_matches_transpose_of_inverse() {
    let a = from(&[
        8.0, -5.0, 9.0, 2.0,
        7.0, 5.0, 6.0, 1.0,
        -6.0, 0.0, 9.0, 6.0,
        -3.0, 0.0, -9.0, -4.0,
    ]);
    let ti = Matrix::inverse(&Matrix::transpose(&a)).unwrap();
    let it = Matrix::transpose(&Matrix::inverse(&a).unwrap());
    for row in 0..4 {
        for col in 0..4 {
            let diff = (ti.get(row, col) - it.get(row, col)).abs();
            assert!(diff < 5 * EPSILON, "entry ({row},{col}) off by {diff}");
        }
    }
}

#[test]
fn singular_matrix_has_no_inverse() {
    let a = from(&[
        -4.0, 2.0, -2.0, -3.0,
        9.0, 6.0, 2.0, 6.0,
        0.0, -5.0, 1.0, -5.0,
        0.0, 0.0, 0.0, 0.0,
    ]);
    assert!(!Matrix::is_invertible(&a));
    assert_eq!(Matrix::inverse(&a).unwrap_err(), MatrixError::NotInvertible);
}

#[test]
fn translate_and_scale_builders() {
    let t = Matrix::translate(fx(5.0), fx(-3.0), fx(2.0));
    let p = Tuples::point(fx(-3.0), fx(4.0), fx(5.0));
    let moved = Matrix::mul_tuple(&t, &p);
    assert_eq!(moved.x, fx(2.0));
    assert_eq!(moved.y, fx(1.0));
    assert_eq!(moved.z, fx(7.0));

    let s = Matrix::scale(fx(2.0), fx(3.0), fx(4.0));
    let v = Tuples::vector(fx(-4.0), fx(6.0), fx(8.0));
    let scaled = Matrix::mul_tuple(&s, &v);
    assert_eq!(scaled.x, fx(-8.0));
    assert_eq!(scaled.y, fx(18.0));
    assert_eq!(scaled.z, fx(32.0));
}

#[test]
fn rotation_about_x_axis() {
    let half_quarter = Matrix::rotate_x(fx((std::f64::consts::PI / 4.0).sin()), fx((std::f64::consts::PI / 4.0).cos()));
    let p = Tuples::point(0, SCALE, 0);
    let r = Matrix::mul_tuple(&half_quarter, &p);
    assert!((r.y - fx(0.70710678)).abs() < 3 * EPSILON);
    assert!((r.z - fx(0.70710678)).abs() < 3 * EPSILON);
}

#[test]
fn shear_moves_x_by_y() {
    let sh = Matrix::shear(SCALE, 0, 0, 0, 0, 0);
    let p = Tuples::point(fx(2.0), fx(3.0), fx(4.0));
    let r = Matrix::mul_tuple(&sh, &p);
    assert_eq!(r.x, fx(5.0));
    assert_eq!(r.y, fx(3.0));
    assert_eq!(r.z, fx(4.0));
}

#[test]
fn view_transform_default_orientation() {
    let from_p = Tuples::point(0, 0, 0);
    let to = Tuples::point(0, 0, -SCALE);
    let up = Tuples::vector(0, SCALE, 0);
    let vt = Matrix::view_transform(&from_p, &to, &up);
    assert!(vt.is_equal(&Matrix::new(4)));
}
