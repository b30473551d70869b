//! A ray: an origin and a direction to march along.

use crate::fixed::Fx;
use crate::matrice::{spec_mul_point, spec_mul_vector, Matrice};
use crate::point::Point;
use crate::tuple::{t_add, t_scale, Tuple};
use crate::vector::Vector;
use vstd::prelude::*;

verus! {

#[derive(Clone, Copy, Debug, PartialEq, Eq, Structural)]
pub struct Ray {
    pub origin: Point,
    pub direction: Vector,
}

/// The point `origin + direction * t`.
pub open spec fn spec_ray_position(r: Ray, t: Fx) -> Tuple {
    t_add(r.origin.position, t_scale(r.direction.position, t))
}

/// The ray carried through a transform: the origin as a point, the
/// direction as a vector.
pub open spec fn spec_ray_transform(r: Ray, m: Seq<Seq<Fx>>) -> Ray {
    Ray {
        origin: Point { position: spec_mul_point(m, r.origin.position) },
        direction: Vector { position: spec_mul_vector(m, r.direction.position) },
    }
}

impl Ray {
    pub fn new(origin: Point, direction: Vector) -> (r: Ray)
        ensures
            r.origin == origin,
            r.direction == direction,
    {
        Ray { origin, direction }
    }

    /// Where the ray stands after marching `t` along its direction.
    pub fn position(&self, t: Fx) -> (r: Point)
        ensures
            r.position == spec_ray_position(*self, t),
    {
        self.origin.add_vector(self.direction.mul_scalar(t))
    }

    /// The ray carried through a transform: the origin as a point, the
    /// direction as a vector.
    pub fn transform(&self, m: &Matrice) -> (r: Ray)
        requires
            m.wf(),
            m.size == 4,
        ensures
            r == spec_ray_transform(*self, m@),
            r.origin.position == spec_mul_point(m@, self.origin.position),
            r.direction.position == spec_mul_vector(m@, self.direction.position),
    {
        Ray { origin: m.mul_point(&self.origin), direction: m.mul_vector(&self.direction) }
    }
}

} // verus!
