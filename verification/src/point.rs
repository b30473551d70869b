//! A bound position in space.

use crate::fixed::Fx;
use crate::tuple::{t_add, t_approx, t_sub, Tuple};
use crate::vector::Vector;
use vstd::prelude::*;

verus! {

/// A point: the homogeneous tuple whose discriminator is one, so a
/// translation moves it and the difference of two points is a vector.
#[derive(Clone, Copy, Debug, PartialEq, Eq, Structural)]
pub struct Point {
    pub position: Tuple,
}

impl Point {
    pub fn new(x: Fx, y: Fx, z: Fx) -> (r: Point)
        ensures
            r.position == (Tuple { x, y, z }),
    {
        Point { position: Tuple { x, y, z } }
    }

    /// The origin.
    pub fn origin() -> (r: Point)
        ensures
            r.position.x.raw == 0,
            r.position.y.raw == 0,
            r.position.z.raw == 0,
    {
        Point { position: Tuple { x: Fx { raw: 0 }, y: Fx { raw: 0 }, z: Fx { raw: 0 } } }
    }

    /// Point minus point: the vector from `rhs` to `self`.
    pub fn sub(self, rhs: Point) -> (r: Vector)
        ensures
            r.position == t_sub(self.position, rhs.position),
    {
        Vector { position: self.position.sub(rhs.position) }
    }

    /// Point plus vector: the point reached from `self` along `rhs`.
    pub fn add_vector(self, rhs: Vector) -> (r: Point)
        ensures
            r.position == t_add(self.position, rhs.position),
    {
        Point { position: self.position.add(rhs.position) }
    }

    pub fn approx_eq(&self, rhs: &Point) -> (r: bool)
        ensures
            r == t_approx(self.position, rhs.position),
    {
        self.position.approx_eq(&rhs.position)
    }
}

impl Default for Point {
    /// The origin.
    fn default() -> (r: Point)
        ensures
            r.position.x.raw == 0,
            r.position.y.raw == 0,
            r.position.z.raw == 0,
    {
        Point { position: Tuple { x: Fx { raw: 0 }, y: Fx { raw: 0 }, z: Fx { raw: 0 } } }
    }
}

} // verus!
