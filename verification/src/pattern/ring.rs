//! Concentric rings in the x-z plane.

use crate::color::Color;
use crate::fixed::{s_add, s_floor_units, s_mul, s_sqrt};
use crate::matrice::Matrice;
use crate::point::Point;
use crate::tuple::{lemma_square_nonneg, Tuple};
use vstd::prelude::*;

verus! {

/// Two colors alternating with the floor of the radial distance
/// `sqrt(x*x + z*z)`.
#[derive(Debug, Clone, PartialEq)]
pub struct Ring {
    pub a: Color,
    pub b: Color,
    pub transform: Matrice,
}

pub open spec fn spec_ring_at(s: Ring, p: Tuple) -> Color {
    if s_floor_units(s_sqrt(s_add(s_mul(p.x, p.x), s_mul(p.z, p.z)))) % 2 == 0 {
        s.a
    } else {
        s.b
    }
}

impl Ring {
    pub fn new(a: Color, b: Color, transform: Matrice) -> (r: Ring)
        requires
            transform.wf(),
            transform.size == 4,
        ensures
            r.a == a,
            r.b == b,
            r.transform == transform,
            r.transform.wf(),
            r.transform.size == 4,
    {
        Ring { a, b, transform }
    }

    pub fn get_transform(&self) -> (r: &Matrice)
        ensures
            r == &self.transform,
    {
        &self.transform
    }

    pub fn at(&self, point: &Point) -> (r: Color)
        ensures
            r == spec_ring_at(*self, point.position),
    {
        let x = point.position.x;
        let z = point.position.z;
        let sq = x.mul(x).add(z.mul(z));
        proof {
            lemma_square_nonneg(x);
            lemma_square_nonneg(z);
        }
        if sq.sqrt().floor_even() {
            self.a
        } else {
            self.b
        }
    }
}

} // verus!
