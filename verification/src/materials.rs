//! Surface material: the Phong coefficients, reflection and refraction
//! scalars, and the owned pattern.
use vstd::prelude::*;
use crate::fx::SCALE;
use crate::fx::fx_eq_s;
use crate::fx::fx_is_equal;
use crate::tuples::Tuples;
use crate::patterns::Pattern;
use crate::patterns::pattern_wf;

verus! {

#[derive(Debug)]
pub struct Material {
    pub pattern: Pattern,
    pub ambient: i64,
    pub diffuse: i64,
    pub specular: i64,
    pub shininess: i64,
    pub reflective: i64,
    pub transparency: i64,
    pub refractive_index: i64,
}

pub open spec fn material_wf(m: Material) -> bool {
    pattern_wf(m.pattern)
}

/// The four Phong coefficients agree within the tolerance; patterns are not
/// compared.
pub open spec fn material_eq_s(a: Material, b: Material) -> bool {
    &&& fx_eq_s(a.ambient as int, b.ambient as int)
    &&& fx_eq_s(a.diffuse as int, b.diffuse as int)
    &&& fx_eq_s(a.specular as int, b.specular as int)
    &&& fx_eq_s(a.shininess as int, b.shininess as int)
}

/// The default material: a white solid color under identity transforms,
/// ambient 0.1, diffuse 0.9, specular 0.9, shininess 200, no reflection,
/// no transparency, refractive index 1.
pub open spec fn material_default_s(m: Material) -> bool {
    &&& m.pattern.kind == crate::patterns::PatternKind::SingleColor(
        crate::tuples::Tuples { kind: crate::tuples::TuplesEnum::Color, x: SCALE, y: SCALE, z: SCALE, w: 0 })
    &&& crate::matrices::is_identity_s(m.pattern.transform.ents(), 4)
    &&& crate::matrices::is_identity_s(m.pattern.transform_inverse.ents(), 4)
    &&& m.ambient == 100_000
    &&& m.diffuse == 900_000
    &&& m.specular == 900_000
    &&& m.shininess == 200_000_000
    &&& m.reflective == 0
    &&& m.transparency == 0
    &&& m.refractive_index == SCALE
}

impl Material {
    pub fn material() -> (r: Material)
        ensures
            material_wf(r),
            material_default_s(r),
    {
        Material {
            pattern: Pattern::single_color(Tuples::color(SCALE, SCALE, SCALE)),
            ambient: 100_000,
            diffuse: 900_000,
            specular: 900_000,
            shininess: 200_000_000,
            reflective: 0,
            transparency: 0,
            refractive_index: SCALE,
        }
    }

    pub fn is_equal(&self, other: &Material) -> (r: bool)
        ensures
            r == material_eq_s(*self, *other),
    {
        fx_is_equal(self.ambient, other.ambient)
            && fx_is_equal(self.diffuse, other.diffuse)
            && fx_is_equal(self.specular, other.specular)
            && fx_is_equal(self.shininess, other.shininess)
    }
}

} // verus!
