//! Surface materials and the Phong reflectance model.

use crate::color::Color;
use crate::consts::{black, spec_black};
use crate::fixed::{fx_pow, s_floor_units, s_mul, Fx, SCALE};
use crate::light::Light;
use crate::pattern::{pattern_wf, spec_at_obj, Pattern};
use crate::point::Point;
use crate::shape::{shape_transform, shape_wf, Shape};
use crate::tuple::{t_add, t_dot, t_hadamard, t_magnitude, t_neg, t_scale, t_sub, Tuple};
use crate::vector::{v_normalize, v_reflect, Vector};
use vstd::prelude::*;

verus! {

/// Reflectance coefficients, a flat color and an optional pattern.
#[derive(Debug, Clone, PartialEq)]
pub struct Material {
    pub color: Color,
    pub ambient: Fx,
    pub diffuse: Fx,
    pub specular: Fx,
    pub shininess: Fx,
    pub pattern: Option<Pattern>,
}

/// A material is well formed when its pattern, if any, carries a well
/// formed transform.
pub open spec fn mat_wf(m: Material) -> bool {
    match m.pattern {
        Some(p) => pattern_wf(p),
        None => true,
    }
}

/// The specular exponent: the whole part of the shininess, floored at
/// zero. The fractional part of a shininess plays no role here.
pub open spec fn pow_exp(sh: Fx) -> nat {
    if s_floor_units(sh) < 0 {
        0
    } else {
        s_floor_units(sh) as nat
    }
}

/// The Phong model, step for step. In shadow only the ambient term
/// survives; a light behind the surface contributes neither diffuse nor
/// specular light; a light standing exactly on the point is treated as
/// behind the surface.
pub open spec fn spec_lighting(
    m: Material,
    l: Light,
    st: Seq<Seq<Fx>>,
    p: Tuple,
    eyev: Tuple,
    normalv: Tuple,
    in_shadow: bool,
) -> Color {
    let base = match m.pattern {
        Some(pat) => match spec_at_obj(pat, st, p) {
            Some(c) => c,
            None => m.color,
        },
        None => m.color,
    };
    let effective = t_hadamard(base.rgb, l.intensity.rgb);
    let ambient = t_scale(effective, m.ambient);
    if in_shadow {
        Color { rgb: ambient }
    } else {
        let lv = t_sub(l.position.position, p);
        if t_magnitude(lv).raw == 0 {
            Color { rgb: ambient }
        } else {
            let lightv = v_normalize(lv);
            let ldn = t_dot(lightv, normalv);
            if ldn.raw < 0 {
                Color { rgb: t_add(t_add(ambient, spec_black().rgb), spec_black().rgb) }
            } else {
                let diffuse = t_scale(t_scale(effective, m.diffuse), ldn);
                let reflectv = v_reflect(t_neg(lightv), normalv);
                let rde = t_dot(reflectv, eyev);
                let specular = if rde.raw <= 0 {
                    spec_black().rgb
                } else {
                    t_scale(t_scale(l.intensity.rgb, m.specular), fx_pow(rde, pow_exp(m.shininess)))
                };
                Color { rgb: t_add(t_add(ambient, diffuse), specular) }
            }
        }
    }
}

/// What the default material amounts to: white, ambient 0.1, diffuse
/// and specular 0.9, shininess 200, no pattern.
pub open spec fn spec_default_material() -> Material {
    Material {
        color: Color {
            rgb: Tuple {
                x: Fx { raw: SCALE },
                y: Fx { raw: SCALE },
                z: Fx { raw: SCALE },
            },
        },
        ambient: Fx { raw: (SCALE / 10) as i64 },
        diffuse: Fx { raw: (SCALE / 10 * 9) as i64 },
        specular: Fx { raw: (SCALE / 10 * 9) as i64 },
        shininess: Fx { raw: (200 * SCALE) as i64 },
        pattern: None,
    }
}

impl Material {
    pub fn new(
        color: Color,
        ambient: Fx,
        diffuse: Fx,
        specular: Fx,
        shininess: Fx,
        pattern: Option<Pattern>,
    ) -> (r: Material)
        ensures
            r == (Material { color, ambient, diffuse, specular, shininess, pattern }),
    {
        Material { color, ambient, diffuse, specular, shininess, pattern }
    }

    /// Shade one point: the pattern or flat color filtered by the
    /// light, then the ambient, diffuse and specular terms added up.
    pub fn lighting(
        &self,
        light: &Light,
        object: &Shape,
        point: &Point,
        eyev: &Vector,
        normalv: &Vector,
        in_shadow: bool,
    ) -> (r: Color)
        requires
            mat_wf(*self),
            shape_wf(*object),
        ensures
            r == spec_lighting(
                *self,
                *light,
                shape_transform(*object),
                point.position,
                eyev.position,
                normalv.position,
                in_shadow,
            ),
    {
        let color = match &self.pattern {
            Some(p) => match p.at_obj(object.get_transform(), point) {
                Some(c) => c,
                None => self.color,
            },
            None => self.color,
        };
        let effective_color = color.mul_color(light.intensity);
        let ambient = effective_color.mul_scalar(self.ambient);
        if in_shadow {
            return ambient;
        }
        let lv = light.position.sub(*point);
        if lv.magnitude().raw == 0 {
            return ambient;
        }
        let lightv = lv.normalize();
        let light_dot_normal = lightv.dot_product(normalv);
        let diffuse: Color;
        let specular: Color;
        if light_dot_normal.raw < 0 {
            diffuse = black();
            specular = black();
        } else {
            diffuse = effective_color.mul_scalar(self.diffuse).mul_scalar(light_dot_normal);
            let reflectv = lightv.neg().reflect(normalv);
            let reflect_dot_eye = reflectv.dot_product(eyev);
            if reflect_dot_eye.raw <= 0 {
                specular = black();
            } else {
                let fu = self.shininess.floor_units();
                let e: u64 = if fu < 0 {
                    0
                } else {
                    fu as u64
                };
                let factor = reflect_dot_eye.powi(e);
                specular = light.intensity.mul_scalar(self.specular).mul_scalar(factor);
            }
        }
        ambient.add(diffuse).add(specular)
    }
}

impl Default for Material {
    /// White, ambient 0.1, diffuse and specular 0.9, shininess 200.
    fn default() -> (r: Material)
        ensures
            r == spec_default_material(),
            mat_wf(r),
    {
        Material {
            color: Color {
                rgb: Tuple {
                    x: Fx { raw: SCALE },
                    y: Fx { raw: SCALE },
                    z: Fx { raw: SCALE },
                },
            },
            ambient: Fx { raw: SCALE / 10 },
            diffuse: Fx { raw: SCALE / 10 * 9 },
            specular: Fx { raw: SCALE / 10 * 9 },
            shininess: Fx { raw: 200 * SCALE },
            pattern: None,
        }
    }
}

/// A point in shadow keeps only its ambient light: whatever the other
/// arguments, the lit color collapses to the ambient term.
pub proof fn lemma_lighting_in_shadow(
    m: Material,
    l: Light,
    st: Seq<Seq<Fx>>,
    p: Tuple,
    eyev: Tuple,
    normalv: Tuple,
)
    ensures
        ({
            let base = match m.pattern {
                Some(pat) => match spec_at_obj(pat, st, p) {
                    Some(c) => c,
                    None => m.color,
                },
                None => m.color,
            };
            spec_lighting(m, l, st, p, eyev, normalv, true) == (Color {
                rgb: t_scale(t_hadamard(base.rgb, l.intensity.rgb), m.ambient),
            })
        }),
{
}

} // verus!
