//! The Phong lighting model: ambient, diffuse and specular contributions of
//! one light at one surface point.
use vstd::prelude::*;
use crate::fx::fx_floor_s;
use crate::fx::fx_powi_s;
use crate::fx::fx_floor;
use crate::fx::fx_powi;
use crate::tuples::Tuples;
use crate::tuples::dot_s;
use crate::tuples::add_tup_s;
use crate::tuples::sub_tup_s;
use crate::tuples::neg_tup_s;
use crate::tuples::mul_tup_s;
use crate::tuples::scale_tup_s;
use crate::tuples::normalize_s;
use crate::tuples::reflect_s;
use crate::materials::Material;
use crate::materials::material_wf;
use crate::shape::Shape;
use crate::shape::shape_wf;
use crate::lights::PointLight;
use crate::patterns::color_at_object_s;
use crate::patterns::black_s;

verus! {

/// The Phong contribution of one light: the pattern color blended with the
/// light, scaled by the ambient coefficient; plus, when the point is lit
/// and faces the light, a diffuse term by the light angle and a specular
/// term by the reflection angle raised to the shininess.
#[verifier::opaque]
pub open spec fn lighting_s(
    material: Material,
    object: Shape,
    light: PointLight,
    pos: Tuples,
    eye_v: Tuples,
    normal_v: Tuples,
    in_shadow: bool,
) -> Tuples {
    let eff_color = mul_tup_s(color_at_object_s(material.pattern, object, pos), light.intensity);
    let ambient = scale_tup_s(eff_color, material.ambient as int);
    if in_shadow {
        ambient
    } else {
        let light_v = normalize_s(sub_tup_s(light.position, pos));
        let light_dot_normal = dot_s(light_v, normal_v);
        if light_dot_normal < 0 {
            ambient
        } else {
            let diffuse = scale_tup_s(scale_tup_s(eff_color, material.diffuse as int), light_dot_normal);
            let reflect_v = reflect_s(neg_tup_s(light_v), normal_v);
            let reflect_dot_eye = dot_s(reflect_v, eye_v);
            let specular = if reflect_dot_eye <= 0 {
                black_s()
            } else {
                let factor = fx_powi_s(reflect_dot_eye, fx_floor_s(material.shininess as int));
                scale_tup_s(scale_tup_s(light.intensity, material.specular as int), factor)
            };
            add_tup_s(add_tup_s(ambient, diffuse), specular)
        }
    }
}

pub fn lighting(
    material: &Material,
    object: &Shape,
    light: &PointLight,
    pos: &Tuples,
    eye_v: &Tuples,
    normal_v: &Tuples,
    in_shadow: bool,
) -> (r: Tuples)
    requires
        material_wf(*material),
        shape_wf(*object),
    ensures
        r == lighting_s(*material, *object, *light, *pos, *eye_v, *normal_v, in_shadow),
{
    proof {
        reveal(lighting_s);
    }
    let mut eff_color = material.pattern.color_at_object(object, pos);
    eff_color.multiply(&light.intensity);
    let mut ambient = eff_color.clone();
    ambient.scale(material.ambient);
    if in_shadow {
        return ambient;
    }
    let mut light_v = light.position.clone();
    light_v.subtract(pos);
    light_v.normalize();
    let light_dot_normal = Tuples::dot(&light_v, normal_v);
    if light_dot_normal < 0 {
        ambient
    } else {
        let mut diffuse = eff_color.clone();
        diffuse.scale(material.diffuse);
        diffuse.scale(light_dot_normal);
        let mut neg_light = light_v.clone();
        neg_light.negate();
        let reflect_v = Tuples::reflect(&neg_light, normal_v);
        let reflect_dot_eye = Tuples::dot(&reflect_v, eye_v);
        let specular = if reflect_dot_eye <= 0 {
            Tuples::color(0, 0, 0)
        } else {
            let factor = fx_powi(reflect_dot_eye, fx_floor(material.shininess));
            let mut spec = light.intensity.clone();
            spec.scale(material.specular);
            spec.scale(factor);
            spec
        };
        let mut out = ambient;
        out.add(&diffuse);
        out.add(&specular)
    }
}

} // verus!
