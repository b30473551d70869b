//! A free direction in space.

use crate::fixed::{s_mul, s_sub, Fx, SCALE};
use crate::point::Point;
use crate::tuple::{
    t_add, t_approx, t_div_scalar, t_dot, t_magnitude, t_neg, t_scale, t_sub, Tuple,
};
use vstd::prelude::*;

verus! {

/// A vector: the homogeneous tuple whose discriminator is zero, so a
/// translation leaves it alone.
#[derive(Clone, Copy, Debug, PartialEq, Eq, Structural)]
pub struct Vector {
    pub position: Tuple,
}

/// The scaled direction with each component divided by the magnitude.
pub open spec fn v_normalize(a: Tuple) -> Tuple {
    t_div_scalar(a, t_magnitude(a))
}

pub open spec fn v_cross(a: Tuple, b: Tuple) -> Tuple {
    Tuple {
        x: s_sub(s_mul(a.y, b.z), s_mul(a.z, b.y)),
        y: s_sub(s_mul(a.z, b.x), s_mul(a.x, b.z)),
        z: s_sub(s_mul(a.x, b.y), s_mul(a.y, b.x)),
    }
}

/// `v` mirrored about the surface normal `n`: `v - n * (2 * dot(v, n))`.
pub open spec fn v_reflect(v: Tuple, n: Tuple) -> Tuple {
    t_sub(v, t_scale(n, s_mul(Fx { raw: (2 * SCALE) as i64 }, t_dot(v, n))))
}

impl Vector {
    pub fn new(x: Fx, y: Fx, z: Fx) -> (r: Vector)
        ensures
            r.position == (Tuple { x, y, z }),
    {
        Vector { position: Tuple { x, y, z } }
    }

    /// The zero vector.
    pub fn zero() -> (r: Vector)
        ensures
            r.position.x.raw == 0,
            r.position.y.raw == 0,
            r.position.z.raw == 0,
    {
        Vector { position: Tuple { x: Fx { raw: 0 }, y: Fx { raw: 0 }, z: Fx { raw: 0 } } }
    }

    pub fn magnitude(&self) -> (r: Fx)
        ensures
            r == t_magnitude(self.position),
    {
        self.position.magnitude()
    }

    /// Scale to unit length. A zero-magnitude vector has no direction,
    /// so it is ruled out by precondition rather than handled.
    pub fn normalize(&self) -> (r: Vector)
        requires
            t_magnitude(self.position).raw != 0,
        ensures
            r.position == v_normalize(self.position),
    {
        let m = self.position.magnitude();
        Vector { position: self.position.div_scalar(m) }
    }

    pub fn dot_product(&self, rhs: &Vector) -> (r: Fx)
        ensures
            r == t_dot(self.position, rhs.position),
    {
        self.position.dot(&rhs.position)
    }

    pub fn cross_product(&self, rhs: &Vector) -> (r: Vector)
        ensures
            r.position == v_cross(self.position, rhs.position),
    {
        Vector {
            position: Tuple {
                x: self.position.y.mul(rhs.position.z).sub(self.position.z.mul(rhs.position.y)),
                y: self.position.z.mul(rhs.position.x).sub(self.position.x.mul(rhs.position.z)),
                z: self.position.x.mul(rhs.position.y).sub(self.position.y.mul(rhs.position.x)),
            },
        }
    }

    /// Mirror this vector about the normal `n`.
    pub fn reflect(&self, n: &Vector) -> (r: Vector)
        ensures
            r.position == v_reflect(self.position, n.position),
    {
        let d = self.position.dot(&n.position);
        let two = Fx { raw: 2 * SCALE };
        Vector { position: self.position.sub(n.position.scale(two.mul(d))) }
    }

    pub fn add(self, rhs: Vector) -> (r: Vector)
        ensures
            r.position == t_add(self.position, rhs.position),
    {
        Vector { position: self.position.add(rhs.position) }
    }

    /// Vector plus point: the point reached from `rhs` along `self`.
    pub fn add_point(self, rhs: Point) -> (r: Point)
        ensures
            r.position == t_add(self.position, rhs.position),
    {
        Point { position: self.position.add(rhs.position) }
    }

    pub fn sub(self, rhs: Vector) -> (r: Vector)
        ensures
            r.position == t_sub(self.position, rhs.position),
    {
        Vector { position: self.position.sub(rhs.position) }
    }

    pub fn neg(self) -> (r: Vector)
        ensures
            r.position == t_neg(self.position),
    {
        Vector { position: self.position.neg() }
    }

    pub fn mul_scalar(self, k: Fx) -> (r: Vector)
        ensures
            r.position == t_scale(self.position, k),
    {
        Vector { position: self.position.scale(k) }
    }

    pub fn div_scalar(self, k: Fx) -> (r: Vector)
        requires
            k.raw != 0,
        ensures
            r.position == t_div_scalar(self.position, k),
    {
        Vector { position: self.position.div_scalar(k) }
    }

    pub fn approx_eq(&self, rhs: &Vector) -> (r: bool)
        ensures
            r == t_approx(self.position, rhs.position),
    {
        self.position.approx_eq(&rhs.position)
    }
}

impl Default for Vector {
    /// The zero vector.
    fn default() -> (r: Vector)
        ensures
            r.position.x.raw == 0,
            r.position.y.raw == 0,
            r.position.z.raw == 0,
    {
        Vector { position: Tuple { x: Fx { raw: 0 }, y: Fx { raw: 0 }, z: Fx { raw: 0 } } }
    }
}

} // verus!
