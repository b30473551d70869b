//! The single point light of a scene.

use crate::color::Color;
use crate::point::Point;
use vstd::prelude::*;

verus! {

/// A point light: a position and an intensity color. There is exactly
/// one per world; no attenuation over distance.
#[derive(Clone, Copy, Debug, PartialEq, Eq, Structural)]
pub struct Light {
    pub position: Point,
    pub intensity: Color,
}

impl Light {
    pub fn new(position: Point, intensity: Color) -> (r: Light)
        ensures
            r.position == position,
            r.intensity == intensity,
    {
        Light { position, intensity }
    }
}

} // verus!
