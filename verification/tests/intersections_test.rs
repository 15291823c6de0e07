use rtxch_lib::fx::SCALE;
use rtxch_lib::fx::EPSILON;
use rtxch_lib::Intersection;
use rtxch_lib::IntersectionList;
use rtxch_lib::Shape;
use rtxch_lib::Matrix;
use rtxch_lib::Material;
use rtxch_lib::Tuples;
use rtxch_lib::Ray;

#[test]
fn hit_picks_smallest_nonnegative_t() {
    let ts: Vec<i64> = vec![5 * SCALE, 7 * SCALE, -3 * SCALE, 2 * SCALE];
    let xs: Vec<Intersection> = ts.iter().map(|t| Intersection::new(*t, 0)).collect();
    let list = IntersectionList::intersections_from_vec(xs);
    let hit = IntersectionList::hit(&list).unwrap();
    assert_eq!(hit.t(), 2 * SCALE);
}

#[test]
fn hit_with_all_negative_t_is_none() {
    let xs = vec![
        Intersection::new(-2 * SCALE, 0),
        Intersection::new(-SCALE, 0),
    ];
    let list = IntersectionList::intersections_from_vec(xs);
    assert!(IntersectionList::hit(&list).is_none());
}

#[test]
fn hit_when_some_t_negative() {
    let list = IntersectionList::intersections(
        Intersection::new(-SCALE, 0),
        Intersection::new(SCALE, 0),
    );
    let hit = IntersectionList::hit(&list).unwrap();
    assert_eq!(hit.t(), SCALE);
}

#[test]
fn merge_sorts_ascending() {
    let l1 = IntersectionList::new(vec![7 * SCALE, -3 * SCALE], 0);
    let l2 = IntersectionList::new(vec![5 * SCALE, 2 * SCALE], 1);
    let merged = IntersectionList::merge(l1, l2);
    assert_eq!(merged.count(), 4);
    let ts: Vec<i64> = merged.xs().iter().map(|i| i.t()).collect();
    assert_eq!(ts, vec![-3 * SCALE, 2 * SCALE, 5 * SCALE, 7 * SCALE]);
}

#[test]
fn shadow_bias_pushes_points_off_the_surface() {
    let mut s = Shape::sphere();
    s.set_transform(&Matrix::translate(0, 0, SCALE)).unwrap();
    let shapes = vec![s];
    let r = Ray::new(Tuples::point(0, 0, -5 * SCALE), Tuples::vector(0, 0, SCALE));
    let xs = Shape::intersect(&shapes[0], &r, 0);
    let hit = IntersectionList::hit(&xs).unwrap();
    assert_eq!(hit.t(), 5 * SCALE);
    let comps = Intersection::prep_computations(&hit, &r, &xs, &shapes);
    // over-point toward the camera, under-point through the surface
    assert!(comps.over_point.z < -EPSILON / 2);
    assert!(comps.under_point.z > EPSILON / 2);
    assert!(!comps.inside);
}

#[test]
fn hit_inside_flips_the_normal() {
    let s = Shape::sphere();
    let shapes = vec![s];
    let r = Ray::new(Tuples::point(0, 0, 0), Tuples::vector(0, 0, SCALE));
    let xs = Shape::intersect(&shapes[0], &r, 0);
    let hit = IntersectionList::hit(&xs).unwrap();
    let comps = Intersection::prep_computations(&hit, &r, &xs, &shapes);
    assert!(comps.inside);
    assert_eq!(comps.normal_v.z, -SCALE);
}

fn glass_sphere_with(refractive: i64) -> Shape {
    let mut s = Shape::glass_sphere();
    let mut m = Material::material();
    m.transparency = SCALE;
    m.refractive_index = refractive;
    s.set_material(m);
    s
}

#[test]
fn refraction_indices_across_overlapping_glass_spheres() {
    // A: glass (1.5) scaled by two; B: glass (2.0) shifted back;
    // C: glass (2.5) shifted forward. The ray passes through all three.
    let mut a = glass_sphere_with(1_500_000);
    a.set_transform(&Matrix::scale(2 * SCALE, 2 * SCALE, 2 * SCALE)).unwrap();
    let mut b = glass_sphere_with(2_000_000);
    b.set_transform(&Matrix::translate(0, 0, -250_000)).unwrap();
    let mut c = glass_sphere_with(2_500_000);
    c.set_transform(&Matrix::translate(0, 0, 250_000)).unwrap();
    let shapes = vec![a, b, c];

    let r = Ray::new(Tuples::point(0, 0, -4 * SCALE), Tuples::vector(0, 0, SCALE));
    let mut all = IntersectionList::create_empty();
    for (i, s) in shapes.iter().enumerate() {
        let xs = Shape::intersect(s, &r, i);
        all = IntersectionList::merge(all, xs);
    }
    assert_eq!(all.count(), 6);

    let expected: Vec<(i64, i64)> = vec![
        (1_000_000, 1_500_000),
        (1_500_000, 2_000_000),
        (2_000_000, 2_500_000),
        (2_500_000, 2_500_000),
        (2_500_000, 1_500_000),
        (1_500_000, 1_000_000),
    ];
    for (idx, want) in expected.iter().enumerate() {
        let hit = all.xs()[idx];
        let comps = Intersection::prep_computations(&hit, &r, &all, &shapes);
        assert_eq!((comps.n1, comps.n2), *want, "hit number {idx}");
    }
}

#[test]
fn under_point_lies_below_the_surface() {
    let mut s = Shape::glass_sphere();
    s.set_transform(&Matrix::translate(0, 0, SCALE)).unwrap();
    let shapes = vec![s];
    let r = Ray::new(Tuples::point(0, 0, -5 * SCALE), Tuples::vector(0, 0, SCALE));
    let xs = Shape::intersect(&shapes[0], &r, 0);
    let hit = IntersectionList::hit(&xs).unwrap();
    let comps = Intersection::prep_computations(&hit, &r, &xs, &shapes);
    assert!(comps.under_point.z > EPSILON / 2);
    assert!(comps.point.z < comps.under_point.z);
}
