//! The scene: the shape list and the lights, with ray casting, shadow
//! testing and the recursive color computation (reflection, refraction and
//! Schlick blending), all bounded by an explicit recursion depth.
use vstd::prelude::*;
use vstd::seq_lib::group_to_multiset_ensures;
use crate::fx::SCALE;
use crate::fx::fx_add_s;
use crate::fx::fx_sub_s;
use crate::fx::fx_mul_s;
use crate::fx::fx_div_s;
use crate::fx::fx_sqrt_s;
use crate::fx::fx_powi_s;
use crate::fx::fx_sub;
use crate::fx::fx_mul;
use crate::fx::fx_div;
use crate::fx::fx_sqrt;
use crate::fx::fx_powi;
use crate::tuples::Tuples;
use crate::tuples::dot_s;
use crate::tuples::add_tup_s;
use crate::tuples::sub_tup_s;
use crate::tuples::scale_tup_s;
use crate::tuples::normalize_s;
use crate::tuples::magnitude_s;
use crate::ray::Ray;
use crate::lights::PointLight;
use crate::lights::point_light;
use crate::shape::Shape;
use crate::shape::shape_wf;
use crate::shape::shape_intersect_s;
use crate::materials::Material;
use crate::matrices::Matrix;
use crate::patterns::Pattern;
use crate::patterns::black_s;
use crate::intersections::Intersection;
use crate::intersections::IntersectionList;
use crate::intersections::Computations;
use crate::intersections::sort_by_t_s;
use crate::intersections::sorted_by_t;
use crate::intersections::first_hit_s;
use crate::intersections::first_shadow_hit_s;
use crate::intersections::objects_in_range;
use crate::intersections::prep_computations_s;
use crate::render::lighting_s;

verus! {

#[derive(Debug)]
pub struct World {
    pub objects: Vec<Shape>,
    pub point_lights: Vec<PointLight>,
}

pub open spec fn world_wf(w: World) -> bool {
    forall|i: int| 0 <= i < w.objects@.len() ==> shape_wf(w.objects@[i])
}

/// All intersections of the ray with the first `k` shapes, merged into one
/// ascending list.
#[verifier::opaque]
pub open spec fn intersect_world_s(shapes: Seq<Shape>, r: Ray, k: int) -> Seq<Intersection>
    decreases k,
{
    if k <= 0 {
        Seq::empty()
    } else {
        sort_by_t_s(
            intersect_world_s(shapes, r, k - 1) + shape_intersect_s(shapes[k - 1], r, (k - 1) as usize))
    }
}

/// A point is shadowed from a light when some shadow-casting shape stands
/// strictly between them along the ray toward the light.
#[verifier::opaque]
pub open spec fn is_shadowed_s(w: World, point: Tuples, light: PointLight) -> bool {
    let v = sub_tup_s(light.position, point);
    let distance = magnitude_s(v);
    let ray = Ray { origin: point, direction: normalize_s(v) };
    let is = intersect_world_s(w.objects@, ray, w.objects@.len() as int);
    match first_shadow_hit_s(is, w.objects@) {
        Some(h) => (h.t as int) < distance,
        None => false,
    }
}

/// Schlick's closed-form estimate of the reflectance at the hit, given the
/// cosine against the surface.
pub open spec fn schlick_base_s(n1: i64, n2: i64, cos: int) -> int {
    if fx_add_s(n1 as int, n2 as int) == 0 {
        SCALE as int
    } else {
        let ratio = fx_div_s(fx_sub_s(n1 as int, n2 as int), fx_add_s(n1 as int, n2 as int));
        let r0 = fx_mul_s(ratio, ratio);
        fx_add_s(r0, fx_mul_s(fx_sub_s(SCALE as int, r0), fx_powi_s(fx_sub_s(SCALE as int, cos), 5)))
    }
}

/// The Schlick reflectance of a hit: full reflection under total internal
/// reflection when leaving a denser medium, else the base formula with the
/// transmitted angle substituted in that case.
#[verifier::opaque]
pub open spec fn schlick_s(c: Computations) -> int {
    let cos0 = dot_s(c.eye_v, c.normal_v);
    if c.n1 > c.n2 {
        if c.n2 == 0 {
            SCALE as int
        } else {
            let n = fx_div_s(c.n1 as int, c.n2 as int);
            let sin2_t = fx_mul_s(fx_mul_s(n, n), fx_sub_s(SCALE as int, fx_mul_s(cos0, cos0)));
            if sin2_t > SCALE {
                SCALE as int
            } else {
                schlick_base_s(c.n1, c.n2, fx_sqrt_s(fx_sub_s(SCALE as int, sin2_t)))
            }
        }
    } else {
        schlick_base_s(c.n1, c.n2, cos0)
    }
}

/// The summed Phong contributions of the first `k` lights, each evaluated
/// at the bias-adjusted over-point with its own shadow test there.
pub open spec fn lights_sum_s(w: World, comps: Computations, k: int) -> Tuples
    decreases k,
{
    if k <= 0 {
        black_s()
    } else {
        let light = w.point_lights@[k - 1];
        let surface = lighting_s(
            w.objects@[comps.object as int].material,
            w.objects@[comps.object as int],
            light,
            comps.over_point,
            comps.eye_v,
            comps.normal_v,
            is_shadowed_s(w, comps.over_point, light),
        );
        add_tup_s(lights_sum_s(w, comps, k - 1), surface)
    }
}

/// The color seen along a ray: black on a miss, else the shaded hit.
pub open spec fn world_color_at_s(w: World, r: Ray, remaining: int) -> Tuples
    decreases remaining, 2int,
{
    let il = intersect_world_s(w.objects@, r, w.objects@.len() as int);
    match first_hit_s(il) {
        None => black_s(),
        Some(i) => {
            if remaining < 0 || i.object as int >= w.objects@.len() {
                black_s()
            } else {
                shade_hit_s(w, prep_computations_s(i, r, il, w.objects@), remaining)
            }
        },
    }
}

/// Surface color plus the reflected and refracted contributions; when the
/// material is both reflective and transparent the two are blended by the
/// Schlick reflectance.
pub open spec fn shade_hit_s(w: World, comps: Computations, remaining: int) -> Tuples
    decreases remaining, 1int,
{
    if remaining < 0 || comps.object as int >= w.objects@.len() {
        black_s()
    } else {
        let surface = lights_sum_s(w, comps, w.point_lights@.len() as int);
        let reflected = reflected_color_s(w, comps, remaining);
        let refracted = refracted_color_s(w, comps, remaining);
        let mat = w.objects@[comps.object as int].material;
        if mat.reflective > 0 && mat.transparency > 0 {
            let reflectance = schlick_s(comps);
            add_tup_s(
                add_tup_s(surface, scale_tup_s(reflected, reflectance)),
                scale_tup_s(refracted, fx_sub_s(SCALE as int, reflectance)),
            )
        } else {
            add_tup_s(add_tup_s(surface, reflected), refracted)
        }
    }
}

/// Black when the depth is exhausted or the surface does not reflect; else
/// the color along the reflection ray from the over-point, scaled by the
/// reflective coefficient.
pub open spec fn reflected_color_s(w: World, comps: Computations, remaining: int) -> Tuples
    decreases remaining, 0int,
{
    if remaining <= 0 || comps.object as int >= w.objects@.len() {
        black_s()
    } else {
        let reflective = w.objects@[comps.object as int].material.reflective;
        if reflective == 0 {
            black_s()
        } else {
            scale_tup_s(
                world_color_at_s(
                    w,
                    Ray { origin: comps.over_point, direction: comps.reflect_v },
                    remaining - 1,
                ),
                reflective as int,
            )
        }
    }
}

/// Black when the depth is exhausted, the surface is opaque, or total
/// internal reflection occurs; else the color along the refraction ray by
/// Snell's law from the under-point, scaled by the transparency.
pub open spec fn refracted_color_s(w: World, comps: Computations, remaining: int) -> Tuples
    decreases remaining, 0int,
{
    if remaining <= 0 || comps.object as int >= w.objects@.len() {
        black_s()
    } else {
        let transparency = w.objects@[comps.object as int].material.transparency;
        if transparency == 0 || comps.n2 == 0 {
            black_s()
        } else {
            let n_ratio = fx_div_s(comps.n1 as int, comps.n2 as int);
            let cos_i = dot_s(comps.eye_v, comps.normal_v);
            let sin2_t = fx_mul_s(fx_mul_s(n_ratio, n_ratio), fx_sub_s(SCALE as int, fx_mul_s(cos_i, cos_i)));
            if sin2_t > SCALE {
                black_s()
            } else {
                let cos_t = fx_sqrt_s(fx_sub_s(SCALE as int, sin2_t));
                let direction = sub_tup_s(
                    scale_tup_s(comps.normal_v, fx_sub_s(fx_mul_s(n_ratio, cos_i), cos_t)),
                    scale_tup_s(comps.eye_v, n_ratio),
                );
                scale_tup_s(
                    world_color_at_s(
                        w,
                        Ray { origin: comps.under_point, direction },
                        remaining - 1,
                    ),
                    transparency as int,
                )
            }
        }
    }
}

proof fn lemma_multiset_object_range(a: Seq<Intersection>, b: Seq<Intersection>, n: int)
    requires
        a.to_multiset() == b.to_multiset(),
        objects_in_range(b, n),
    ensures
        objects_in_range(a, n),
{
    broadcast use group_to_multiset_ensures;
    assert forall|i: int| 0 <= i < a.len() implies a[i].object < n by {
        assert(a.contains(a[i]));
        assert(a.to_multiset().count(a[i]) > 0);
        assert(b.contains(a[i]));
        let w = choose|k: int| 0 <= k < b.len() && b[k] == a[i];
    };
}

proof fn lemma_first_hit_contains(s: Seq<Intersection>)
    ensures
        match first_hit_s(s) {
            Some(h) => s.contains(h),
            None => true,
        },
    decreases s.len(),
{
    if s.len() > 0 && s[0].t < 0 {
        let tail = s.drop_first();
        lemma_first_hit_contains(tail);
        match first_hit_s(tail) {
            Some(h) => {
                assert(tail.contains(h));
                let w = choose|k: int| 0 <= k < tail.len() && tail[k] == h;
                assert(s[w + 1] == h);
            },
            None => {},
        }
    }
}

/// A ray that hits nothing yields black, at any depth.
pub proof fn lemma_color_at_miss_is_black(w: World, r: Ray, remaining: int)
    requires
        first_hit_s(intersect_world_s(w.objects@, r, w.objects@.len() as int)) is None,
    ensures
        world_color_at_s(w, r, remaining) == black_s(),
{
}

impl World {
    pub fn new() -> (w: World)
        ensures
            world_wf(w),
            w.objects@.len() == 0,
            w.point_lights@.len() == 0,
    {
        World { objects: Vec::new(), point_lights: Vec::new() }
    }

    pub fn add_object(&mut self, shape: Shape)
        requires
            shape_wf(shape),
        ensures
            final(self).objects@ == old(self).objects@.push(shape),
            final(self).point_lights == old(self).point_lights,
            world_wf(*old(self)) ==> world_wf(*final(self)),
    {
        self.objects.push(shape);
    }

    pub fn add_point_light(&mut self, light: PointLight)
        ensures
            final(self).point_lights@ == old(self).point_lights@.push(light),
            final(self).objects == old(self).objects,
    {
        self.point_lights.push(light);
    }

    pub fn remove_lights(&mut self)
        ensures
            final(self).point_lights@.len() == 0,
            final(self).objects == old(self).objects,
    {
        self.point_lights = Vec::new();
    }

    pub fn get_objects(&self) -> (r: &Vec<Shape>)
        ensures
            *r == self.objects,
    {
        &self.objects
    }

    pub fn get_point_lights(&self) -> (r: &Vec<PointLight>)
        ensures
            *r == self.point_lights,
    {
        &self.point_lights
    }

    /// Cast the ray against every shape and merge the results into one
    /// globally sorted list.
    pub fn intersect_world(w: &World, r: &Ray) -> (out: IntersectionList)
        requires
            world_wf(*w),
        ensures
            crate::intersections::list_wf(out),
            out.xs@ == intersect_world_s(w.objects@, *r, w.objects@.len() as int),
            sorted_by_t(out.xs@),
            objects_in_range(out.xs@, w.objects@.len() as int),
    {
        proof {
            reveal(intersect_world_s);
        }
        let mut result = IntersectionList::create_empty();
        let mut i: usize = 0;
        while i < w.objects.len()
            invariant
                world_wf(*w),
                i <= w.objects@.len(),
                crate::intersections::list_wf(result),
                result.xs@ == intersect_world_s(w.objects@, *r, i as int),
                sorted_by_t(result.xs@),
                objects_in_range(result.xs@, w.objects@.len() as int),
            decreases w.objects@.len() - i,
        {
            let xs = Shape::intersect(&w.objects[i], r, i);
            proof {
                reveal(intersect_world_s);
                assert(objects_in_range(xs.xs@, w.objects@.len() as int));
            }
            let ghost combined = result.xs@ + xs.xs@;
            result = IntersectionList::merge(result, xs);
            proof {
                lemma_multiset_object_range(result.xs@, combined, w.objects@.len() as int);
            }
            i = i + 1;
        }
        result
    }

    /// Whether `point` lies in the shadow of `light`.
    pub fn is_shadowed(w: &World, point: &Tuples, light: &PointLight) -> (r: bool)
        requires
            world_wf(*w),
        ensures
            r == is_shadowed_s(*w, *point, *light),
    {
        proof {
            reveal(is_shadowed_s);
        }
        let mut vector = light.position.clone();
        vector.subtract(point);
        let mut for_mag = vector.clone();
        let distance = for_mag.magnitude();
        let direction = vector.normalize();
        let ray = Ray::new(point.clone(), direction);
        let is = World::intersect_world(w, &ray);
        let hit = IntersectionList::hit_shadow(&is, &w.objects);
        match hit {
            Some(h) => h.t < distance,
            None => false,
        }
    }

    /// The color seen along a ray, with at most `remaining` reflection or
    /// refraction bounces; a miss is black.
    pub fn color_at(w: &World, r: &Ray, remaining: i32) -> (out: Tuples)
        requires
            world_wf(*w),
            remaining >= 0,
        ensures
            out == world_color_at_s(*w, *r, remaining as int),
        decreases remaining, 2int,
    {
        let il = World::intersect_world(w, r);
        let hit = IntersectionList::hit(&il);
        match hit {
            Some(i) => {
                proof {
                    lemma_first_hit_contains(il.xs@);
                    let k = choose|k: int| 0 <= k < il.xs@.len() && il.xs@[k] == i;
                    assert(il.xs@[k].object < w.objects@.len());
                }
                let comps = Intersection::prep_computations(&i, r, &il, &w.objects);
                World::shade_hit(w, &comps, remaining)
            },
            None => Tuples::color(0, 0, 0),
        }
    }

    /// Surface color from every light plus the reflected and refracted
    /// contributions, Schlick-blended when the material has both.
    #[verifier::rlimit(60)]
    pub fn shade_hit(w: &World, comps: &Computations, remaining: i32) -> (out: Tuples)
        requires
            world_wf(*w),
            remaining >= 0,
            comps.object < w.objects@.len(),
        ensures
            out == shade_hit_s(*w, *comps, remaining as int),
        decreases remaining, 1int,
    {
        let mut color = Tuples::color(0, 0, 0);
        let mut li: usize = 0;
        while li < w.point_lights.len()
            invariant
                world_wf(*w),
                comps.object < w.objects@.len(),
                li <= w.point_lights@.len(),
                color == lights_sum_s(*w, *comps, li as int),
            decreases w.point_lights@.len() - li,
        {
            let light = w.point_lights[li];
            let in_shadow = World::is_shadowed(w, &comps.over_point, &light);
            let surface = crate::render::lighting(
                &w.objects[comps.object].material,
                &w.objects[comps.object],
                &light,
                &comps.over_point,
                &comps.eye_v,
                &comps.normal_v,
                in_shadow,
            );
            color.add(&surface);
            li = li + 1;
        }
        let mut reflected = World::reflected_color(w, comps, remaining);
        let mut refracted = World::refracted_color(w, comps, remaining);
        let reflective = w.objects[comps.object].material.reflective;
        let transparency = w.objects[comps.object].material.transparency;
        if reflective > 0 && transparency > 0 {
            let reflectance = Intersection::schlick(comps);
            reflected.scale(reflectance);
            refracted.scale(fx_sub(SCALE, reflectance));
        }
        color.add(&reflected);
        color.add(&refracted)
    }

    /// The reflected contribution: black when out of depth or the material
    /// does not reflect.
    pub fn reflected_color(w: &World, comps: &Computations, remaining: i32) -> (out: Tuples)
        requires
            world_wf(*w),
            remaining >= 0,
            comps.object < w.objects@.len(),
        ensures
            out == reflected_color_s(*w, *comps, remaining as int),
        decreases remaining, 0int,
    {
        if remaining == 0 {
            return Tuples::color(0, 0, 0);
        }
        let reflective = w.objects[comps.object].material.reflective;
        if reflective == 0 {
            Tuples::color(0, 0, 0)
        } else {
            let reflected_ray = Ray::new(comps.over_point.clone(), comps.reflect_v.clone());
            let mut reflected_color = World::color_at(w, &reflected_ray, remaining - 1);
            reflected_color.scale(reflective)
        }
    }

    /// The refracted contribution by Snell's law: black when out of depth,
    /// opaque, or under total internal reflection.
    pub fn refracted_color(w: &World, comps: &Computations, remaining: i32) -> (out: Tuples)
        requires
            world_wf(*w),
            remaining >= 0,
            comps.object < w.objects@.len(),
        ensures
            out == refracted_color_s(*w, *comps, remaining as int),
        decreases remaining, 0int,
    {
        if remaining == 0 {
            return Tuples::color(0, 0, 0);
        }
        let transparency = w.objects[comps.object].material.transparency;
        if transparency == 0 || comps.n2 == 0 {
            return Tuples::color(0, 0, 0);
        }
        let n_ratio = fx_div(comps.n1, comps.n2);
        let cos_i = Tuples::dot(&comps.eye_v, &comps.normal_v);
        let sin2_t = fx_mul(fx_mul(n_ratio, n_ratio), fx_sub(SCALE, fx_mul(cos_i, cos_i)));
        if sin2_t > SCALE {
            return Tuples::color(0, 0, 0);
        }
        let cos_t = fx_sqrt(fx_sub(SCALE, sin2_t));
        let mut direction_refracted = comps.normal_v.clone();
        direction_refracted.scale(fx_sub(fx_mul(n_ratio, cos_i), cos_t));
        let mut eye_scaled = comps.eye_v.clone();
        eye_scaled.scale(n_ratio);
        direction_refracted.subtract(&eye_scaled);
        let r_refracted = Ray::new(comps.under_point.clone(), direction_refracted);
        let mut out = World::color_at(w, &r_refracted, remaining - 1);
        out.scale(transparency)
    }

    /// The standard two-sphere, one-light test scene: an outer sphere with
    /// a green-tinted material, an inner sphere scaled to half size (its
    /// exact inverse, a doubling, is installed with it), and one white
    /// light at (-10, 10, -10).
    pub fn default_world() -> (w: World)
        ensures
            world_wf(w),
            w.objects@.len() == 2,
            w.point_lights@.len() == 1,
            w.objects@[0].kind == crate::shape::ShapeKind::Sphere,
            crate::matrices::is_identity_s(w.objects@[0].transform.ents(), 4),
            crate::matrices::is_identity_s(w.objects@[0].transform_inverse.ents(), 4),
            w.objects@[0].material.pattern.kind == crate::patterns::PatternKind::SingleColor(
                Tuples { kind: crate::tuples::TuplesEnum::Color, x: 800_000, y: SCALE, z: 600_000, w: 0 }),
            crate::matrices::is_identity_s(w.objects@[0].material.pattern.transform_inverse.ents(), 4),
            w.objects@[0].material.ambient == 100_000,
            w.objects@[0].material.diffuse == 700_000,
            w.objects@[0].material.specular == 200_000,
            w.objects@[0].material.shininess == 200_000_000,
            w.objects@[0].material.reflective == 0,
            w.objects@[0].material.transparency == 0,
            w.objects@[0].material.refractive_index == SCALE,
            w.objects@[0].cast_shadows,
            w.objects@[1].kind == crate::shape::ShapeKind::Sphere,
            w.objects@[1].transform.ents() == crate::matrices::scale_seq_s(500_000, 500_000, 500_000),
            w.objects@[1].transform_inverse.ents() == crate::matrices::scale_seq_s(2_000_000, 2_000_000, 2_000_000),
            crate::materials::material_default_s(w.objects@[1].material),
            w.objects@[1].cast_shadows,
            w.point_lights@[0].position == (Tuples { kind: crate::tuples::TuplesEnum::Point, x: (-10_000_000) as i64, y: 10_000_000, z: (-10_000_000) as i64, w: SCALE }),
            w.point_lights@[0].intensity == (Tuples { kind: crate::tuples::TuplesEnum::Color, x: SCALE, y: SCALE, z: SCALE, w: 0 }),
    {
        let mut world = World::new();
        let mut s1 = Shape::sphere();
        let mut material = Material::material();
        material.pattern = Pattern::single_color(Tuples::color(800_000, SCALE, 600_000));
        material.diffuse = 700_000;
        material.specular = 200_000;
        s1.set_material(material);
        world.add_object(s1);

        let mut s2 = Shape::sphere();
        s2.transform = Matrix::scale(500_000, 500_000, 500_000);
        s2.transform_inverse = Matrix::scale(2_000_000, 2_000_000, 2_000_000);
        world.add_object(s2);

        let p = Tuples::point(-10_000_000, 10_000_000, -10_000_000);
        let c = Tuples::color(SCALE, SCALE, SCALE);
        let pl = point_light(&p, &c);
        world.add_point_light(pl);

        world
    }
}

impl Intersection {
    /// The Schlick reflectance of a shading frame.
    pub fn schlick(comps: &Computations) -> (r: i64)
        ensures
            r as int == schlick_s(*comps),
    {
        proof {
            reveal(schlick_s);
        }
        let cos0 = Tuples::dot(&comps.eye_v, &comps.normal_v);
        let mut cos = cos0;
        if comps.n1 > comps.n2 {
            if comps.n2 == 0 {
                return SCALE;
            }
            let n = fx_div(comps.n1, comps.n2);
            let sin2_t = fx_mul(fx_mul(n, n), fx_sub(SCALE, fx_mul(cos0, cos0)));
            if sin2_t > SCALE {
                return SCALE;
            }
            cos = fx_sqrt(fx_sub(SCALE, sin2_t));
        }
        let denom = crate::fx::fx_add(comps.n1, comps.n2);
        if denom == 0 {
            return SCALE;
        }
        let ratio = fx_div(fx_sub(comps.n1, comps.n2), denom);
        let r0 = fx_mul(ratio, ratio);
        crate::fx::fx_add(r0, fx_mul(fx_sub(SCALE, r0), fx_powi(fx_sub(SCALE, cos), 5)))
    }
}

} // verus!
