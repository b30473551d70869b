//! The infinite x-z plane.

use crate::fixed::{abs_i, s_div, s_neg, Fx, EPS_RAW, SCALE};
use crate::material::{mat_wf, spec_default_material, Material};
use crate::matrice::{
    spec_det, spec_identity, spec_inverse_mat, spec_mul_vector, spec_transpose, Matrice,
};
use crate::point::Point;
use crate::ray::{spec_ray_transform, Ray};
use crate::tuple::{t_magnitude, Tuple};
use crate::vector::{v_normalize, Vector};
use vstd::prelude::*;

verus! {

/// The plane `y = 0`, placed in the world by its transform.
#[derive(Debug, Clone, PartialEq)]
pub struct Plane {
    pub id: String,
    pub transform: Matrice,
    pub material: Material,
}

/// The object-space normal of the plane, the constant `(0, 1, 0)`.
pub open spec fn plane_local_normal() -> Tuple {
    Tuple { x: Fx { raw: 0 }, y: Fx { raw: SCALE as i64 }, z: Fx { raw: 0 } }
}

/// The single root `-O.y / D.y` in object space. A ray whose y
/// direction is within the tolerance of zero runs parallel — or lies in
/// the plane itself — and deliberately yields no intersection.
pub open spec fn spec_plane_local(r: Ray) -> Option<Seq<Fx>> {
    if abs_i(r.direction.position.y.raw as int) < EPS_RAW as int {
        None
    } else {
        Some(seq![s_div(s_neg(r.origin.position.y), r.direction.position.y)])
    }
}

/// World-space intersection through the inverse transform; nothing
/// when the transform has no inverse.
pub open spec fn spec_plane_intersect(s: Plane, r: Ray) -> Option<Seq<Fx>> {
    if spec_det(s.transform@).raw == 0 {
        None
    } else {
        spec_plane_local(spec_ray_transform(r, spec_inverse_mat(s.transform@)))
    }
}

/// The world normal: the constant local normal pushed out through the
/// transposed inverse and re-normalized.
pub open spec fn spec_plane_normal(s: Plane, world_point: Tuple) -> Option<Tuple> {
    if spec_det(s.transform@).raw == 0 {
        None
    } else {
        let inv = spec_inverse_mat(s.transform@);
        let world_normal = spec_mul_vector(spec_transpose(inv), plane_local_normal());
        if t_magnitude(world_normal).raw == 0 {
            None
        } else {
            Some(v_normalize(world_normal))
        }
    }
}

impl Plane {
    pub open spec fn wf(&self) -> bool {
        &&& self.transform.wf()
        &&& self.transform.size == 4
        &&& mat_wf(self.material)
    }

    /// A plane under the given transform and material, with a fresh
    /// identity.
    pub fn new(transform: Matrice, material: Material) -> (r: Plane)
        requires
            transform.wf(),
            transform.size == 4,
            mat_wf(material),
        ensures
            r.wf(),
            r.transform == transform,
            r.material == material,
            r.id@.len() == 36,
    {
        Plane { id: crate::ids::fresh_id(), transform, material }
    }

    /// The single object-space root, or `None` for a parallel or
    /// coplanar ray.
    pub fn local_intersect(&self, r: &Ray) -> (res: Option<Vec<Fx>>)
        ensures
            match res {
                Some(v) => spec_plane_local(*r) == Some(v@),
                None => spec_plane_local(*r) is None,
            },
    {
        let dy = r.direction.position.y;
        let ady = dy.abs();
        if ady.raw < EPS_RAW {
            return None;
        }
        let t = r.origin.position.y.neg().div(dy);
        let mut out: Vec<Fx> = Vec::new();
        out.push(t);
        proof {
            assert(out@ =~= spec_plane_local(*r)->Some_0);
        }
        Some(out)
    }

    /// World-space intersection through the inverse transform.
    pub fn intersect(&self, r: &Ray) -> (res: Option<Vec<Fx>>)
        requires
            self.wf(),
        ensures
            match res {
                Some(v) => spec_plane_intersect(*self, *r) == Some(v@),
                None => spec_plane_intersect(*self, *r) is None,
            },
    {
        let inv = match self.transform.inverse() {
            Some(m) => m,
            None => {
                return None;
            },
        };
        let local_ray = r.transform(&inv);
        self.local_intersect(&local_ray)
    }

    /// The constant local normal `(0, 1, 0)`.
    pub fn local_normal_at(&self, _local_point: Point) -> (r: Vector)
        ensures
            r.position == plane_local_normal(),
    {
        Vector { position: Tuple { x: Fx { raw: 0 }, y: Fx { raw: SCALE }, z: Fx { raw: 0 } } }
    }

    /// The world normal at a world point, or nothing when the transform
    /// has no inverse or the normal degenerates.
    pub fn normal_at(&self, world_point: Point) -> (res: Option<Vector>)
        requires
            self.wf(),
        ensures
            match res {
                Some(v) => spec_plane_normal(*self, world_point.position) == Some(v.position),
                None => spec_plane_normal(*self, world_point.position) is None,
            },
    {
        let inv = match self.transform.inverse() {
            Some(m) => m,
            None => {
                return None;
            },
        };
        let local_normal = self.local_normal_at(world_point);
        let world_normal = inv.transpose().mul_vector(&local_normal);
        if world_normal.magnitude().raw == 0 {
            return None;
        }
        Some(world_normal.normalize())
    }

    pub fn get_transform(&self) -> (r: &Matrice)
        ensures
            *r == self.transform,
    {
        &self.transform
    }

    pub fn set_transform(&mut self, transform: Matrice)
        requires
            transform.wf(),
            transform.size == 4,
        ensures
            final(self).transform == transform,
            final(self).material == old(self).material,
            final(self).id == old(self).id,
    {
        self.transform = transform;
    }

    pub fn get_material(&self) -> (r: &Material)
        ensures
            *r == self.material,
    {
        &self.material
    }

    pub fn set_material(&mut self, material: Material)
        requires
            mat_wf(material),
        ensures
            final(self).material == material,
            final(self).transform == old(self).transform,
            final(self).id == old(self).id,
    {
        self.material = material;
    }

    pub fn get_shape_id(&self) -> (r: String)
        ensures
            r@ == self.id@,
    {
        self.id.clone()
    }
}

/// A plane under the identity transform reports exactly its constant
/// local normal, and that normal is exactly unit length: one instance
/// of the rule that identity-transformed shapes yield unit normals,
/// here with no rounding at all.
pub proof fn lemma_identity_plane_normal_unit(s: Plane, p: Tuple)
    requires
        s.transform@ == crate::matrice::spec_identity(4),
    ensures
        spec_plane_normal(s, p) == Some(plane_local_normal()),
        t_magnitude(plane_local_normal()) == (Fx { raw: SCALE as i64 }),
{
    let one = Fx { raw: SCALE as i64 };
    let zero = Fx { raw: 0 };
    let n = plane_local_normal();
    crate::matrice::lemma_inverse_identity4();
    crate::matrice::lemma_transpose_identity();
    crate::matrice::lemma_identity_applications(n);
    crate::matrice::lemma_fx_unit_ops(zero);
    crate::matrice::lemma_fx_unit_ops(one);
    assert(crate::tuple::t_dot(n, n) == one);
    assert(crate::fixed::is_isqrt(SCALE as int * SCALE as int, SCALE as int))
        by (nonlinear_arith);
    crate::fixed::lemma_isqrt_is(SCALE as int * SCALE as int, SCALE as int);
    assert(t_magnitude(n) == one);
    assert(crate::vector::v_normalize(n) == n);
}

impl Default for Plane {
    /// The bare x-z plane with the identity transform and default
    /// material.
    fn default() -> (r: Plane)
        ensures
            r.wf(),
            r.transform@ == spec_identity(4),
            r.transform.size == 4,
            r.material == spec_default_material(),
            r.id@.len() == 36,
    {
        Plane::new(Matrice::identity_matrix(4), Material::default())
    }
}

} // verus!
