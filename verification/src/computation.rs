//! Precomputed per-hit state handed to shading.

use crate::fixed::{Fx, EPS_RAW};
use crate::intersection::Intersection;
use crate::point::Point;
use crate::ray::{spec_ray_position, Ray};
use crate::shape::{spec_shape_normal, Shape};
use crate::tuple::{t_add, t_dot, t_neg, t_scale, Tuple};
use crate::vector::Vector;
use vstd::prelude::*;

verus! {

/// Ephemeral state for one hit: where it lies, how the eye and the
/// surface face each other, and the nudged shadow-ray origin.
#[derive(Debug, Clone, PartialEq)]
pub struct Computation {
    pub t: Fx,
    pub object_id: String,
    pub point: Point,
    pub over_point: Point,
    pub eyev: Vector,
    pub normalv: Vector,
    pub inside: bool,
}

/// The hit point along the ray.
pub open spec fn spec_comp_point(r: Ray, t: Fx) -> Tuple {
    spec_ray_position(r, t)
}

/// The eye vector: the ray direction turned around.
pub open spec fn spec_comp_eyev(r: Ray) -> Tuple {
    t_neg(r.direction.position)
}

/// The shape's normal at the hit point, or the zero vector where the
/// shape has none to offer.
pub open spec fn spec_comp_raw_normal(s: Shape, r: Ray, t: Fx) -> Tuple {
    match spec_shape_normal(s, spec_comp_point(r, t)) {
        Some(n) => n,
        None => Tuple { x: Fx { raw: 0 }, y: Fx { raw: 0 }, z: Fx { raw: 0 } },
    }
}

/// The ray hit the inside of the shape: the geometric normal faces
/// away from the eye.
pub open spec fn spec_comp_inside(s: Shape, r: Ray, t: Fx) -> bool {
    t_dot(spec_comp_raw_normal(s, r, t), spec_comp_eyev(r)).raw < 0
}

/// The shading normal: flipped toward the eye when the hit was inside.
pub open spec fn spec_comp_normalv(s: Shape, r: Ray, t: Fx) -> Tuple {
    if spec_comp_inside(s, r, t) {
        t_neg(spec_comp_raw_normal(s, r, t))
    } else {
        spec_comp_raw_normal(s, r, t)
    }
}

/// The hit point nudged a tolerance along the shading normal, the
/// shadow-ray origin that cannot re-hit its own surface.
pub open spec fn spec_comp_over_point(s: Shape, r: Ray, t: Fx) -> Tuple {
    t_add(spec_comp_point(r, t), t_scale(spec_comp_normalv(s, r, t), Fx { raw: EPS_RAW as i64 }))
}

impl Computation {
    /// Work out the per-hit state for an intersection against `s`.
    pub fn new(ray: &Ray, i: &Intersection, s: &Shape) -> (r: Computation)
        requires
            s.wf(),
        ensures
            r.t == i.t,
            r.object_id@ == i.shape_id@,
            r.point.position == spec_comp_point(*ray, i.t),
            r.eyev.position == spec_comp_eyev(*ray),
            r.normalv.position == spec_comp_normalv(*s, *ray, i.t),
            r.inside == spec_comp_inside(*s, *ray, i.t),
            r.over_point.position == spec_comp_over_point(*s, *ray, i.t),
    {
        let point = ray.position(i.t);
        let eyev = ray.direction.neg();
        let mut normalv = match s.normal_at(point) {
            Some(n) => n,
            None => Vector::zero(),
        };
        let inside: bool;
        if normalv.dot_product(&eyev).raw < 0 {
            inside = true;
            normalv = normalv.neg();
        } else {
            inside = false;
        }
        let eps = Fx { raw: EPS_RAW };
        Computation {
            t: i.t,
            object_id: i.shape_id.clone(),
            point,
            over_point: point.add_vector(normalv.mul_scalar(eps)),
            eyev,
            normalv,
            inside,
        }
    }
}

} // verus!
