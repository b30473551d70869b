//! Stripes alternating along the x axis.

use crate::color::Color;
use crate::fixed::s_floor_units;
use crate::matrice::Matrice;
use crate::point::Point;
use crate::tuple::Tuple;
use vstd::prelude::*;

verus! {

/// Two colors alternating with the whole-unit floor of x.
#[derive(Debug, Clone, PartialEq)]
pub struct Stripe {
    pub a: Color,
    pub b: Color,
    pub transform: Matrice,
}

/// Color `a` on even floors of x, `b` on odd ones.
pub open spec fn spec_stripe_at(s: Stripe, p: Tuple) -> Color {
    if s_floor_units(p.x) % 2 == 0 {
        s.a
    } else {
        s.b
    }
}

impl Stripe {
    pub fn new(a: Color, b: Color, transform: Matrice) -> (r: Stripe)
        requires
            transform.wf(),
            transform.size == 4,
        ensures
            r.a == a,
            r.b == b,
            r.transform == transform,
            r.transform.wf(),
            r.transform.size == 4,
    {
        Stripe { a, b, transform }
    }

    pub fn get_transform(&self) -> (r: &Matrice)
        ensures
            r == &self.transform,
    {
        &self.transform
    }

    pub fn at(&self, point: &Point) -> (r: Color)
        ensures
            r == spec_stripe_at(*self, point.position),
    {
        if point.position.x.floor_even() {
            self.a
        } else {
            self.b
        }
    }
}

} // verus!
