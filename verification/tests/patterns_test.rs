use rtxch_lib::fx::SCALE;
use rtxch_lib::Pattern;
use rtxch_lib::Shape;
use rtxch_lib::Matrix;
use rtxch_lib::Tuples;

fn white() -> Tuples {
    Tuples::color(SCALE, SCALE, SCALE)
}

fn black() -> Tuples {
    Tuples::color(0, 0, 0)
}

#[test]
fn stripe_alternates_in_x_only() {
    let p = Pattern::stripe(white(), black());
    assert!(p.color_at(&Tuples::point(0, 0, 0)).is_equal(&white()));
    assert!(p.color_at(&Tuples::point(0, SCALE, 0)).is_equal(&white()));
    assert!(p.color_at(&Tuples::point(0, 0, SCALE)).is_equal(&white()));
    assert!(p.color_at(&Tuples::point(900_000, 0, 0)).is_equal(&white()));
    assert!(p.color_at(&Tuples::point(SCALE, 0, 0)).is_equal(&black()));
    assert!(p.color_at(&Tuples::point(-100_000, 0, 0)).is_equal(&black()));
    assert!(p.color_at(&Tuples::point(-1_100_000, 0, 0)).is_equal(&white()));
}

#[test]
fn gradient_interpolates_along_x() {
    let p = Pattern::gradient(white(), black());
    assert!(p.color_at(&Tuples::point(0, 0, 0)).is_equal(&white()));
    let quarter = p.color_at(&Tuples::point(250_000, 0, 0));
    assert!(quarter.is_equal(&Tuples::color(750_000, 750_000, 750_000)));
    let half = p.color_at(&Tuples::point(500_000, 0, 0));
    assert!(half.is_equal(&Tuples::color(500_000, 500_000, 500_000)));
}

#[test]
fn ring_depends_on_x_and_z() {
    let p = Pattern::ring(white(), black());
    assert!(p.color_at(&Tuples::point(0, 0, 0)).is_equal(&white()));
    assert!(p.color_at(&Tuples::point(SCALE, 0, 0)).is_equal(&black()));
    assert!(p.color_at(&Tuples::point(0, 0, SCALE)).is_equal(&black()));
}

#[test]
fn checkers_repeat_in_x_and_z_but_not_y() {
    let p = Pattern::checkers(white(), black());
    assert!(p.color_at(&Tuples::point(0, 0, 0)).is_equal(&white()));
    assert!(p.color_at(&Tuples::point(990_000, 0, 0)).is_equal(&white()));
    assert!(p.color_at(&Tuples::point(1_010_000, 0, 0)).is_equal(&black()));
    assert!(p.color_at(&Tuples::point(0, 0, 1_010_000)).is_equal(&black()));
    // y is deliberately ignored so xz planes keep their pattern
    assert!(p.color_at(&Tuples::point(0, 1_010_000, 0)).is_equal(&white()));
    assert!(p.color_at(&Tuples::point(0, 2_020_000, 0)).is_equal(&white()));
}

#[test]
fn solid_color_is_constant() {
    let p = Pattern::single_color(Tuples::color(100_000, 200_000, 300_000));
    let c = p.color_at(&Tuples::point(5 * SCALE, -3 * SCALE, 7 * SCALE));
    assert!(c.is_equal(&Tuples::color(100_000, 200_000, 300_000)));
}

#[test]
fn blended_averages_both_patterns() {
    let p = Pattern::blended(
        Pattern::single_color(white()),
        Pattern::single_color(black()),
    );
    let c = p.color_at(&Tuples::point(0, 0, 0));
    assert!(c.is_equal(&Tuples::color(500_000, 500_000, 500_000)));
}

#[test]
fn nested_checkers_dispatch_by_parity() {
    let p = Pattern::nested_checkers(
        Pattern::single_color(white()),
        Pattern::single_color(black()),
    );
    assert!(p.color_at(&Tuples::point(0, 0, 0)).is_equal(&white()));
    assert!(p.color_at(&Tuples::point(1_500_000, 0, 0)).is_equal(&black()));
}

#[test]
fn pattern_round_trip_with_identity_transforms() {
    // with identity transforms on both the shape and the pattern,
    // evaluating through the object equals evaluating directly
    let p = Pattern::stripe(white(), black());
    let s = Shape::sphere();
    let points = [
        Tuples::point(0, 0, 0),
        Tuples::point(1_500_000, 200_000, -300_000),
        Tuples::point(-2_250_000, 0, SCALE),
    ];
    for w in points.iter() {
        let via_object = p.color_at_object(&s, w);
        let direct = p.color_at(w);
        assert_eq!(via_object.x, direct.x);
        assert_eq!(via_object.y, direct.y);
        assert_eq!(via_object.z, direct.z);
    }
}

#[test]
fn stripes_with_object_transform() {
    let mut s = Shape::sphere();
    s.set_transform(&Matrix::scale(2 * SCALE, 2 * SCALE, 2 * SCALE)).unwrap();
    let p = Pattern::stripe(white(), black());
    let c = p.color_at_object(&s, &Tuples::point(1_500_000, 0, 0));
    assert!(c.is_equal(&white()));
}

#[test]
fn stripes_with_pattern_transform() {
    let s = Shape::sphere();
    let mut p = Pattern::stripe(white(), black());
    p.set_transform(Matrix::scale(2 * SCALE, 2 * SCALE, 2 * SCALE)).unwrap();
    let c = p.color_at_object(&s, &Tuples::point(1_500_000, 0, 0));
    assert!(c.is_equal(&white()));
}

#[test]
fn test_pattern_reports_the_point() {
    let p = Pattern::test();
    let c = p.color_at(&Tuples::point(SCALE, 2 * SCALE, 3 * SCALE));
    assert_eq!(c.x, SCALE);
    assert_eq!(c.y, 2 * SCALE);
    assert_eq!(c.z, 3 * SCALE);
}

#[test]
fn color_a_and_color_b_report_the_colors() {
    let p = Pattern::stripe(white(), black());
    assert!(p.color_a().is_equal(&white()));
    assert!(p.color_b().is_equal(&black()));
}
