//! The three-component value underlying points, vectors and colors.

use crate::fixed::{s_add, s_div, s_mul, s_neg, s_sqrt, s_sub, Fx, EPS_RAW};
use vstd::prelude::*;

verus! {

/// Three fixed-point components. A `Point` reads them as coordinates,
/// a `Vector` as a direction, a `Color` as red, green and blue.
#[derive(Clone, Copy, Debug, PartialEq, Eq, Structural)]
pub struct Tuple {
    pub x: Fx,
    pub y: Fx,
    pub z: Fx,
}

pub open spec fn t_add(a: Tuple, b: Tuple) -> Tuple {
    Tuple { x: s_add(a.x, b.x), y: s_add(a.y, b.y), z: s_add(a.z, b.z) }
}

pub open spec fn t_sub(a: Tuple, b: Tuple) -> Tuple {
    Tuple { x: s_sub(a.x, b.x), y: s_sub(a.y, b.y), z: s_sub(a.z, b.z) }
}

pub open spec fn t_neg(a: Tuple) -> Tuple {
    Tuple { x: s_neg(a.x), y: s_neg(a.y), z: s_neg(a.z) }
}

pub open spec fn t_scale(a: Tuple, k: Fx) -> Tuple {
    Tuple { x: s_mul(a.x, k), y: s_mul(a.y, k), z: s_mul(a.z, k) }
}

pub open spec fn t_div_scalar(a: Tuple, k: Fx) -> Tuple {
    Tuple { x: s_div(a.x, k), y: s_div(a.y, k), z: s_div(a.z, k) }
}

/// Componentwise product, the Hadamard blend of two colors.
pub open spec fn t_hadamard(a: Tuple, b: Tuple) -> Tuple {
    Tuple { x: s_mul(a.x, b.x), y: s_mul(a.y, b.y), z: s_mul(a.z, b.z) }
}

/// The dot product, accumulated left to right.
pub open spec fn t_dot(a: Tuple, b: Tuple) -> Fx {
    s_add(s_add(s_mul(a.x, b.x), s_mul(a.y, b.y)), s_mul(a.z, b.z))
}

pub open spec fn t_magnitude(a: Tuple) -> Fx {
    s_sqrt(t_dot(a, a))
}

/// Whether every pair of components differs by less than the tolerance.
pub open spec fn t_approx(a: Tuple, b: Tuple) -> bool {
    &&& crate::fixed::abs_i(a.x.raw - b.x.raw) < EPS_RAW as int
    &&& crate::fixed::abs_i(a.y.raw - b.y.raw) < EPS_RAW as int
    &&& crate::fixed::abs_i(a.z.raw - b.z.raw) < EPS_RAW as int
}

/// A product of a scalar with itself never goes below zero.
pub proof fn lemma_square_nonneg(a: Fx)
    ensures
        s_mul(a, a).raw >= 0,
{
    assert((a.raw as int) * (a.raw as int) >= 0) by (nonlinear_arith);
    assert(crate::fixed::div_trunc(a.raw * a.raw, crate::fixed::SCALE as int) >= 0) by {
        vstd::arithmetic::div_mod::lemma_div_pos_is_pos(
            crate::fixed::abs_i(a.raw * a.raw),
            crate::fixed::SCALE as int,
        );
    }
}

/// The dot product of a tuple with itself never goes below zero.
pub proof fn lemma_dot_self_nonneg(a: Tuple)
    ensures
        t_dot(a, a).raw >= 0,
{
    lemma_square_nonneg(a.x);
    lemma_square_nonneg(a.y);
    lemma_square_nonneg(a.z);
}

impl Tuple {
    pub fn new(x: Fx, y: Fx, z: Fx) -> (r: Tuple)
        ensures
            r == (Tuple { x, y, z }),
    {
        Tuple { x, y, z }
    }

    pub fn add(self, rhs: Tuple) -> (r: Tuple)
        ensures
            r == t_add(self, rhs),
    {
        Tuple { x: self.x.add(rhs.x), y: self.y.add(rhs.y), z: self.z.add(rhs.z) }
    }

    pub fn sub(self, rhs: Tuple) -> (r: Tuple)
        ensures
            r == t_sub(self, rhs),
    {
        Tuple { x: self.x.sub(rhs.x), y: self.y.sub(rhs.y), z: self.z.sub(rhs.z) }
    }

    pub fn neg(self) -> (r: Tuple)
        ensures
            r == t_neg(self),
    {
        Tuple { x: self.x.neg(), y: self.y.neg(), z: self.z.neg() }
    }

    pub fn scale(self, k: Fx) -> (r: Tuple)
        ensures
            r == t_scale(self, k),
    {
        Tuple { x: self.x.mul(k), y: self.y.mul(k), z: self.z.mul(k) }
    }

    pub fn div_scalar(self, k: Fx) -> (r: Tuple)
        requires
            k.raw != 0,
        ensures
            r == t_div_scalar(self, k),
    {
        Tuple { x: self.x.div(k), y: self.y.div(k), z: self.z.div(k) }
    }

    pub fn hadamard(self, rhs: Tuple) -> (r: Tuple)
        ensures
            r == t_hadamard(self, rhs),
    {
        Tuple { x: self.x.mul(rhs.x), y: self.y.mul(rhs.y), z: self.z.mul(rhs.z) }
    }

    pub fn dot(&self, rhs: &Tuple) -> (r: Fx)
        ensures
            r == t_dot(*self, *rhs),
    {
        self.x.mul(rhs.x).add(self.y.mul(rhs.y)).add(self.z.mul(rhs.z))
    }

    pub fn magnitude(&self) -> (r: Fx)
        ensures
            r == t_magnitude(*self),
    {
        let d = self.dot(self);
        proof {
            lemma_dot_self_nonneg(*self);
        }
        d.sqrt()
    }

    /// Whether the two tuples agree within the tolerance on every component.
    pub fn approx_eq(&self, rhs: &Tuple) -> (r: bool)
        ensures
            r == t_approx(*self, *rhs),
    {
        self.x.approx_eq(rhs.x) && self.y.approx_eq(rhs.y) && self.z.approx_eq(rhs.z)
    }
}

} // verus!
