use rtxch_lib::fx::SCALE;
use rtxch_lib::fx::EPSILON;
use rtxch_lib::Shape;
use rtxch_lib::Matrix;
use rtxch_lib::Tuples;
use rtxch_lib::Ray;

#[test]
fn ray_intersects_unit_sphere_at_two_points() {
    let s = Shape::sphere();
    let r = Ray::new(Tuples::point(0, 0, -5 * SCALE), Tuples::vector(0, 0, SCALE));
    let xs = Shape::intersect(&s, &r, 0);
    assert_eq!(xs.count(), 2);
    assert_eq!(xs.xs()[0].t(), 4 * SCALE);
    assert_eq!(xs.xs()[1].t(), 6 * SCALE);
}

#[test]
fn ray_tangent_to_sphere_gives_equal_roots() {
    let s = Shape::sphere();
    let r = Ray::new(Tuples::point(0, SCALE, -5 * SCALE), Tuples::vector(0, 0, SCALE));
    let xs = Shape::intersect(&s, &r, 0);
    assert_eq!(xs.count(), 2);
    assert_eq!(xs.xs()[0].t(), 5 * SCALE);
    assert_eq!(xs.xs()[1].t(), 5 * SCALE);
}

#[test]
fn ray_misses_sphere() {
    let s = Shape::sphere();
    let r = Ray::new(Tuples::point(0, 2 * SCALE, -5 * SCALE), Tuples::vector(0, 0, SCALE));
    let xs = Shape::intersect(&s, &r, 0);
    assert_eq!(xs.count(), 0);
}

#[test]
fn ray_originates_inside_sphere() {
    let s = Shape::sphere();
    let r = Ray::new(Tuples::point(0, 0, 0), Tuples::vector(0, 0, SCALE));
    let xs = Shape::intersect(&s, &r, 0);
    assert_eq!(xs.count(), 2);
    assert_eq!(xs.xs()[0].t(), -SCALE);
    assert_eq!(xs.xs()[1].t(), SCALE);
}

#[test]
fn intersect_scaled_sphere() {
    let mut s = Shape::sphere();
    s.set_transform(&Matrix::scale(2 * SCALE, 2 * SCALE, 2 * SCALE)).unwrap();
    let r = Ray::new(Tuples::point(0, 0, -5 * SCALE), Tuples::vector(0, 0, SCALE));
    let xs = Shape::intersect(&s, &r, 0);
    assert_eq!(xs.count(), 2);
    assert_eq!(xs.xs()[0].t(), 3 * SCALE);
    assert_eq!(xs.xs()[1].t(), 7 * SCALE);
}

#[test]
fn singular_transform_is_rejected() {
    let mut s = Shape::sphere();
    let err = s.set_transform(&Matrix::scale(0, 0, 0));
    assert!(err.is_err());
    // the shape keeps its identity transform
    assert_eq!(s.get_transform().get(0, 0), SCALE);
}

#[test]
fn sphere_normal_on_axis_and_diagonal() {
    let s = Shape::sphere();
    let n = Shape::normal_at(&s, &Tuples::point(SCALE, 0, 0));
    assert_eq!(n.x, SCALE);
    assert_eq!(n.y, 0);
    let k = 577_350; // 1 / sqrt(3)
    let n2 = Shape::normal_at(&s, &Tuples::point(k, k, k));
    assert!((n2.x - k).abs() < 3 * EPSILON);
    assert!((n2.y - k).abs() < 3 * EPSILON);
    assert!((n2.z - k).abs() < 3 * EPSILON);
}

#[test]
fn normal_of_translated_sphere() {
    let mut s = Shape::sphere();
    s.set_transform(&Matrix::translate(0, SCALE, 0)).unwrap();
    let n = Shape::normal_at(&s, &Tuples::point(0, 1_707_107, -707_107));
    assert!((n.y - 707_107).abs() < 3 * EPSILON);
    assert!((n.z + 707_107).abs() < 3 * EPSILON);
}

#[test]
fn plane_intersection_and_normal() {
    let p = Shape::plane();
    // parallel ray misses
    let r = Ray::new(Tuples::point(0, 10 * SCALE, 0), Tuples::vector(0, 0, SCALE));
    assert_eq!(Shape::intersect(&p, &r, 0).count(), 0);
    // from above
    let r2 = Ray::new(Tuples::point(0, SCALE, 0), Tuples::vector(0, -SCALE, 0));
    let xs = Shape::intersect(&p, &r2, 0);
    assert_eq!(xs.count(), 1);
    assert_eq!(xs.xs()[0].t(), SCALE);
    let n = p.normal_at_local(&Tuples::point(10 * SCALE, 0, -10 * SCALE));
    assert_eq!(n.y, SCALE);
}

#[test]
fn cube_intersections_from_each_side() {
    let c = Shape::cube();
    // +x face
    let r = Ray::new(Tuples::point(5 * SCALE, 500_000, 0), Tuples::vector(-SCALE, 0, 0));
    let xs = Shape::intersect(&c, &r, 0);
    assert_eq!(xs.count(), 2);
    assert_eq!(xs.xs()[0].t(), 4 * SCALE);
    assert_eq!(xs.xs()[1].t(), 6 * SCALE);
    // inside
    let r2 = Ray::new(Tuples::point(0, 500_000, 0), Tuples::vector(0, 0, SCALE));
    let xs2 = Shape::intersect(&c, &r2, 0);
    assert_eq!(xs2.xs()[0].t(), -SCALE);
    assert_eq!(xs2.xs()[1].t(), SCALE);
    // miss
    let r3 = Ray::new(
        Tuples::point(2 * SCALE, 0, 2 * SCALE),
        Tuples::vector(0, 0, -SCALE),
    );
    assert_eq!(Shape::intersect(&c, &r3, 0).count(), 0);
}

#[test]
fn cube_normals_pick_largest_axis() {
    let c = Shape::cube();
    let n = c.normal_at_local(&Tuples::point(SCALE, 500_000, -800_000));
    assert_eq!(n.x, SCALE);
    let n2 = c.normal_at_local(&Tuples::point(-200_000, -SCALE, 900_000));
    assert_eq!(n2.y, -SCALE);
}

#[test]
fn cylinder_misses_and_hits() {
    let cyl = Shape::cylinder();
    // parallel to the axis from inside: no lateral hit
    let r = Ray::new(Tuples::point(0, 0, 0), Tuples::vector(0, SCALE, 0));
    assert_eq!(Shape::intersect(&cyl, &r, 0).count(), 0);
    // straight through
    let r2 = Ray::new(Tuples::point(0, 0, -5 * SCALE), Tuples::vector(0, 0, SCALE));
    let xs = Shape::intersect(&cyl, &r2, 0);
    assert_eq!(xs.count(), 2);
    assert_eq!(xs.xs()[0].t(), 4 * SCALE);
    assert_eq!(xs.xs()[1].t(), 6 * SCALE);
}

#[test]
fn capped_cylinder_intersects_caps() {
    let cyl = Shape::cylinder_limited(SCALE, 2 * SCALE, true);
    let r = Ray::new(Tuples::point(0, 3 * SCALE, 0), Tuples::vector(0, -SCALE, 0));
    let xs = Shape::intersect(&cyl, &r, 0);
    assert_eq!(xs.count(), 2);
}

#[test]
fn cylinder_normals() {
    let cyl = Shape::cylinder();
    let n = cyl.normal_at_local(&Tuples::point(SCALE, 0, 0));
    assert_eq!(n.x, SCALE);
    assert_eq!(n.y, 0);
    let capped = Shape::cylinder_limited(SCALE, 2 * SCALE, true);
    let n2 = capped.normal_at_local(&Tuples::point(0, 2 * SCALE, 0));
    assert_eq!(n2.y, SCALE);
    let n3 = capped.normal_at_local(&Tuples::point(0, SCALE, 0));
    assert_eq!(n3.y, -SCALE);
}

#[test]
fn cone_intersections() {
    let cone = Shape::cone();
    let r = Ray::new(Tuples::point(0, 0, -5 * SCALE), Tuples::vector(0, 0, SCALE));
    let xs = Shape::intersect(&cone, &r, 0);
    assert_eq!(xs.count(), 2);
    assert_eq!(xs.xs()[0].t(), 5 * SCALE);
    assert_eq!(xs.xs()[1].t(), 5 * SCALE);
    // a ray parallel to one nappe produces a single lateral hit
    let k = 707_107;
    let r2 = Ray::new(Tuples::point(0, 0, -SCALE), Tuples::vector(0, k, k));
    let xs2 = Shape::intersect(&cone, &r2, 0);
    assert_eq!(xs2.count(), 1);
}

#[test]
fn cone_normals_scale_with_slope() {
    let cone = Shape::cone();
    let n = cone.normal_at_local(&Tuples::point(SCALE, SCALE, 0));
    assert_eq!(n.x, SCALE);
    assert_eq!(n.y, -SCALE);
    let n2 = cone.normal_at_local(&Tuples::point(-SCALE, -SCALE, 0));
    assert_eq!(n2.x, -SCALE);
    assert_eq!(n2.y, SCALE);
}

#[test]
fn shape_equality_by_kind_material_transform() {
    let a = Shape::sphere();
    let b = Shape::sphere();
    assert!(Shape::is_equal(&a, &b));
    let c = Shape::plane();
    assert!(!Shape::is_equal(&a, &c));
    let mut d = Shape::sphere();
    d.set_transform(&Matrix::translate(SCALE, 0, 0)).unwrap();
    assert!(!Shape::is_equal(&a, &d));
}

#[test]
fn glass_sphere_material() {
    let g = Shape::glass_sphere();
    assert_eq!(g.get_material().transparency, SCALE);
    assert_eq!(g.get_material().refractive_index, 1_500_000);
}

#[test]
fn cast_shadows_flag() {
    let mut s = Shape::sphere();
    assert!(s.cast_shadows());
    s.set_cast_shadows(false);
    assert!(!s.cast_shadows());
}

#[test]
fn get_type_names_the_solid() {
    assert_eq!(Shape::sphere().get_type(), "Sphere");
    assert_eq!(Shape::plane().get_type(), "Plane");
    assert_eq!(Shape::cube().get_type(), "Cube");
    assert_eq!(Shape::cylinder().get_type(), "Cylinder");
    assert_eq!(Shape::cone().get_type(), "Cone");
}

#[test]
fn closed_cylinder_cap_hits_come_out_ascending() {
    // straight down through both caps: the far (lower) cap is crossed
    // second, so the raw cap order is descending and must be sorted
    let cyl = Shape::cylinder_limited(-SCALE, SCALE, true);
    let r = Ray::new(Tuples::point(0, 2 * SCALE, 0), Tuples::vector(0, -SCALE, 0));
    let xs = Shape::intersect(&cyl, &r, 0);
    assert_eq!(xs.count(), 2);
    assert_eq!(xs.xs()[0].t(), SCALE);
    assert_eq!(xs.xs()[1].t(), 3 * SCALE);
}

#[test]
fn closed_cone_cap_hits_come_out_ascending() {
    let cone = Shape::cone_limited(SCALE, 2 * SCALE, true);
    let r = Ray::new(Tuples::point(0, 3 * SCALE, 0), Tuples::vector(0, -SCALE, 0));
    let xs = Shape::intersect(&cone, &r, 0);
    assert_eq!(xs.count(), 2);
    assert_eq!(xs.xs()[0].t(), SCALE);
    assert_eq!(xs.xs()[1].t(), 2 * SCALE);
}
