//! Surface patterns: a stateless color function of a point, with its
//! own transform on top of the owning shape's.

use crate::color::Color;
use crate::fixed::Fx;
use crate::matrice::{spec_det, spec_inverse_mat, spec_mul_point, Matrice};
use crate::point::Point;
use crate::tuple::Tuple;
use vstd::prelude::*;

pub mod checker;
pub mod gradient;
pub mod ring;
pub mod stripe;

use checker::{spec_checker_at, Checker};
use gradient::{spec_gradient_at, Gradient};
use ring::{spec_ring_at, Ring};
use stripe::{spec_stripe_at, Stripe};

verus! {

/// The closed set of pattern variants.
#[derive(Debug, Clone, PartialEq)]
pub enum Pattern {
    Stripe(Stripe),
    Checker(Checker),
    Ring(Ring),
    Gradient(Gradient),
}

pub open spec fn pattern_transform(p: Pattern) -> Seq<Seq<Fx>> {
    match p {
        Pattern::Stripe(s) => s.transform@,
        Pattern::Checker(c) => c.transform@,
        Pattern::Ring(r) => r.transform@,
        Pattern::Gradient(g) => g.transform@,
    }
}

/// Every pattern carries a well-formed 4x4 transform.
pub open spec fn pattern_wf(p: Pattern) -> bool {
    match p {
        Pattern::Stripe(s) => s.transform.wf() && s.transform.size == 4,
        Pattern::Checker(c) => c.transform.wf() && c.transform.size == 4,
        Pattern::Ring(r) => r.transform.wf() && r.transform.size == 4,
        Pattern::Gradient(g) => g.transform.wf() && g.transform.size == 4,
    }
}

/// The variant's color at a point already in pattern space.
pub open spec fn spec_pattern_at(p: Pattern, point: Tuple) -> Color {
    match p {
        Pattern::Stripe(s) => spec_stripe_at(s, point),
        Pattern::Checker(c) => spec_checker_at(c, point),
        Pattern::Ring(r) => spec_ring_at(r, point),
        Pattern::Gradient(g) => spec_gradient_at(g, point),
    }
}

/// The color seen at a world point on a shape with transform `st`:
/// the point is pulled into object space by the shape's inverse, then
/// into pattern space by the pattern's inverse; nothing when either
/// transform has no inverse.
pub open spec fn spec_at_obj(p: Pattern, st: Seq<Seq<Fx>>, point: Tuple) -> Option<Color> {
    if spec_det(st).raw == 0 {
        None
    } else if spec_det(pattern_transform(p)).raw == 0 {
        None
    } else {
        Some(
            spec_pattern_at(
                p,
                spec_mul_point(
                    spec_inverse_mat(pattern_transform(p)),
                    spec_mul_point(spec_inverse_mat(st), point),
                ),
            ),
        )
    }
}

impl Pattern {
    pub fn get_transform(&self) -> (r: &Matrice)
        ensures
            r@ == pattern_transform(*self),
            pattern_wf(*self) ==> r.wf() && r.size == 4,
    {
        match self {
            Pattern::Stripe(s) => &s.transform,
            Pattern::Checker(c) => &c.transform,
            Pattern::Ring(r) => &r.transform,
            Pattern::Gradient(g) => &g.transform,
        }
    }

    /// The variant's color at a point already in pattern space.
    pub fn at(&self, point: &Point) -> (r: Color)
        ensures
            r == spec_pattern_at(*self, point.position),
    {
        match self {
            Pattern::Stripe(s) => s.at(point),
            Pattern::Checker(c) => c.at(point),
            Pattern::Ring(r) => r.at(point),
            Pattern::Gradient(g) => g.at(point),
        }
    }

    /// The color at a world point on the shape whose transform is
    /// `shape_transform`; nothing when a transform has no inverse, in
    /// which case the caller falls back to the material's flat color.
    pub fn at_obj(&self, shape_transform: &Matrice, point: &Point) -> (r: Option<Color>)
        requires
            shape_transform.wf(),
            shape_transform.size == 4,
            pattern_wf(*self),
        ensures
            r == spec_at_obj(*self, shape_transform@, point.position),
    {
        let st_inv = match shape_transform.inverse() {
            Some(m) => m,
            None => {
                return None;
            },
        };
        let pt_inv = match self.get_transform().inverse() {
            Some(m) => m,
            None => {
                return None;
            },
        };
        let object_point = st_inv.mul_point(point);
        let pattern_point = pt_inv.mul_point(&object_point);
        Some(self.at(&pattern_point))
    }
}

} // verus!
