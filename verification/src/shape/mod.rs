//! The closed set of shapes, dispatched by an explicit match.

use crate::fixed::Fx;
use crate::material::{mat_wf, Material};
use crate::matrice::Matrice;
use crate::point::Point;
use crate::ray::Ray;
use crate::tuple::Tuple;
use crate::vector::Vector;
use vstd::prelude::*;

pub mod plane;
pub mod sphere;

use plane::{spec_plane_intersect, spec_plane_normal, Plane};
use sphere::{spec_sphere_intersect, spec_sphere_normal, Sphere};

verus! {

/// A scene shape: a sphere or a plane, each owning an identity, a
/// transform and a material.
#[derive(Debug, Clone, PartialEq)]
pub enum Shape {
    Sphere(Sphere),
    Plane(Plane),
}

pub open spec fn shape_id_view(s: Shape) -> Seq<char> {
    match s {
        Shape::Sphere(sp) => sp.id@,
        Shape::Plane(pl) => pl.id@,
    }
}

pub open spec fn shape_transform(s: Shape) -> Seq<Seq<Fx>> {
    match s {
        Shape::Sphere(sp) => sp.transform@,
        Shape::Plane(pl) => pl.transform@,
    }
}

pub open spec fn shape_material(s: Shape) -> Material {
    match s {
        Shape::Sphere(sp) => sp.material,
        Shape::Plane(pl) => pl.material,
    }
}

pub open spec fn shape_wf(s: Shape) -> bool {
    match s {
        Shape::Sphere(sp) => sp.wf(),
        Shape::Plane(pl) => pl.wf(),
    }
}

/// The variant's world-space roots along a ray, ascending for the
/// sphere, single for the plane; nothing on a miss or a transform
/// without an inverse.
pub open spec fn spec_shape_intersect(s: Shape, r: Ray) -> Option<Seq<Fx>> {
    match s {
        Shape::Sphere(sp) => spec_sphere_intersect(sp, r),
        Shape::Plane(pl) => spec_plane_intersect(pl, r),
    }
}

/// The variant's world normal at a world point.
pub open spec fn spec_shape_normal(s: Shape, world_point: Tuple) -> Option<Tuple> {
    match s {
        Shape::Sphere(sp) => spec_sphere_normal(sp, world_point),
        Shape::Plane(pl) => spec_plane_normal(pl, world_point),
    }
}

impl Shape {
    pub open spec fn wf(&self) -> bool {
        shape_wf(*self)
    }

    /// The world-space roots of the ray against this shape.
    pub fn intersect(&self, r: &Ray) -> (res: Option<Vec<Fx>>)
        requires
            self.wf(),
        ensures
            match res {
                Some(v) => spec_shape_intersect(*self, *r) == Some(v@),
                None => spec_shape_intersect(*self, *r) is None,
            },
    {
        match self {
            Shape::Sphere(sp) => sp.intersect(r),
            Shape::Plane(pl) => pl.intersect(r),
        }
    }

    /// The world normal at a world point.
    pub fn normal_at(&self, world_point: Point) -> (res: Option<Vector>)
        requires
            self.wf(),
        ensures
            match res {
                Some(v) => spec_shape_normal(*self, world_point.position) == Some(v.position),
                None => spec_shape_normal(*self, world_point.position) is None,
            },
    {
        match self {
            Shape::Sphere(sp) => sp.normal_at(world_point),
            Shape::Plane(pl) => pl.normal_at(world_point),
        }
    }

    pub fn get_transform(&self) -> (r: &Matrice)
        ensures
            r@ == shape_transform(*self),
            self.wf() ==> r.wf() && r.size == 4,
    {
        match self {
            Shape::Sphere(sp) => sp.get_transform(),
            Shape::Plane(pl) => pl.get_transform(),
        }
    }

    pub fn set_transform(&mut self, transform: Matrice)
        requires
            transform.wf(),
            transform.size == 4,
        ensures
            shape_transform(*final(self)) == transform@,
            shape_material(*final(self)) == shape_material(*old(self)),
            shape_id_view(*final(self)) == shape_id_view(*old(self)),
            old(self).wf() ==> final(self).wf(),
            (*final(self)) is Sphere <==> (*old(self)) is Sphere,
    {
        match self {
            Shape::Sphere(sp) => sp.set_transform(transform),
            Shape::Plane(pl) => pl.set_transform(transform),
        }
    }

    pub fn get_material(&self) -> (r: &Material)
        ensures
            *r == shape_material(*self),
    {
        match self {
            Shape::Sphere(sp) => sp.get_material(),
            Shape::Plane(pl) => pl.get_material(),
        }
    }

    pub fn set_material(&mut self, material: Material)
        requires
            mat_wf(material),
        ensures
            shape_material(*final(self)) == material,
            shape_transform(*final(self)) == shape_transform(*old(self)),
            shape_id_view(*final(self)) == shape_id_view(*old(self)),
            old(self).wf() ==> final(self).wf(),
            (*final(self)) is Sphere <==> (*old(self)) is Sphere,
    {
        match self {
            Shape::Sphere(sp) => sp.set_material(material),
            Shape::Plane(pl) => pl.set_material(material),
        }
    }

    pub fn get_shape_id(&self) -> (r: String)
        ensures
            r@ == shape_id_view(*self),
    {
        match self {
            Shape::Sphere(sp) => sp.get_shape_id(),
            Shape::Plane(pl) => pl.get_shape_id(),
        }
    }
}

} // verus!
