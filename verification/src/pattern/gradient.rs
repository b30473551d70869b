//! A linear blend between two colors along the x axis.

use crate::color::Color;
use crate::fixed::{s_floor, s_sub};
use crate::matrice::Matrice;
use crate::point::Point;
use crate::tuple::{t_add, t_scale, t_sub, Tuple};
use vstd::prelude::*;

verus! {

/// `from` blended toward `to` by the fractional part of x.
#[derive(Debug, Clone, PartialEq)]
pub struct Gradient {
    pub from: Color,
    pub to: Color,
    pub transform: Matrice,
}

/// `from + (to - from) * (x - floor(x))`.
pub open spec fn spec_gradient_at(g: Gradient, p: Tuple) -> Color {
    Color {
        rgb: t_add(
            g.from.rgb,
            t_scale(t_sub(g.to.rgb, g.from.rgb), s_sub(p.x, s_floor(p.x))),
        ),
    }
}

impl Gradient {
    pub fn new(from: Color, to: Color, transform: Matrice) -> (r: Gradient)
        requires
            transform.wf(),
            transform.size == 4,
        ensures
            r.from == from,
            r.to == to,
            r.transform == transform,
            r.transform.wf(),
            r.transform.size == 4,
    {
        Gradient { from, to, transform }
    }

    pub fn get_transform(&self) -> (r: &Matrice)
        ensures
            r == &self.transform,
    {
        &self.transform
    }

    pub fn at(&self, point: &Point) -> (r: Color)
        ensures
            r == spec_gradient_at(*self, point.position),
    {
        let distance = self.to.sub(self.from);
        let fraction = point.position.x.sub(point.position.x.floor());
        self.from.add(distance.mul_scalar(fraction))
    }
}

} // verus!
