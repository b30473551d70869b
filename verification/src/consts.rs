//! Shared constants of the tracer.

use crate::color::Color;
use crate::fixed::{Fx, EPS_RAW, SCALE};
use crate::tuple::Tuple;
use vstd::prelude::*;

verus! {

/// The geometric tolerance 1e-5: shadow rays start this far off a
/// surface, and a ray this close to parallel misses a plane.
pub fn epsilon() -> (r: Fx)
    ensures
        r.raw == EPS_RAW,
{
    Fx { raw: EPS_RAW }
}

pub open spec fn spec_black() -> Color {
    Color { rgb: Tuple { x: Fx { raw: 0 }, y: Fx { raw: 0 }, z: Fx { raw: 0 } } }
}

pub open spec fn spec_white() -> Color {
    Color { rgb: Tuple { x: Fx { raw: SCALE }, y: Fx { raw: SCALE }, z: Fx { raw: SCALE } } }
}

pub fn black() -> (r: Color)
    ensures
        r == spec_black(),
{
    Color { rgb: Tuple { x: Fx { raw: 0 }, y: Fx { raw: 0 }, z: Fx { raw: 0 } } }
}

pub fn white() -> (r: Color)
    ensures
        r == spec_white(),
{
    Color { rgb: Tuple { x: Fx { raw: SCALE }, y: Fx { raw: SCALE }, z: Fx { raw: SCALE } } }
}

} // verus!
