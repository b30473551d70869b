//! A three-dimensional checkerboard.

use crate::color::Color;
use crate::fixed::{abs_i, fx, s_add, s_floor_units, Fx};
use crate::matrice::Matrice;
use crate::point::Point;
use crate::tuple::Tuple;
use vstd::prelude::*;

verus! {

/// Two colors alternating with the floor of `|x| + |y| + |z|`.
#[derive(Debug, Clone, PartialEq)]
pub struct Checker {
    pub a: Color,
    pub b: Color,
    pub transform: Matrice,
}

pub open spec fn fx_abs(a: Fx) -> Fx {
    fx(abs_i(a.raw as int))
}

/// Color `a` where the floor of the summed absolute coordinates is
/// even, `b` where it is odd.
pub open spec fn spec_checker_at(s: Checker, p: Tuple) -> Color {
    if s_floor_units(s_add(s_add(fx_abs(p.x), fx_abs(p.y)), fx_abs(p.z))) % 2 == 0 {
        s.a
    } else {
        s.b
    }
}

impl Checker {
    pub fn new(a: Color, b: Color, transform: Matrice) -> (r: Checker)
        requires
            transform.wf(),
            transform.size == 4,
        ensures
            r.a == a,
            r.b == b,
            r.transform == transform,
            r.transform.wf(),
            r.transform.size == 4,
    {
        Checker { a, b, transform }
    }

    pub fn get_transform(&self) -> (r: &Matrice)
        ensures
            r == &self.transform,
    {
        &self.transform
    }

    pub fn at(&self, point: &Point) -> (r: Color)
        ensures
            r == spec_checker_at(*self, point.position),
    {
        let s = point.position.x.abs().add(point.position.y.abs()).add(point.position.z.abs());
        if s.floor_even() {
            self.a
        } else {
            self.b
        }
    }
}

} // verus!
