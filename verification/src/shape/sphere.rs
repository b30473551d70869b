//! The unit sphere at the object-space origin.

use crate::fixed::{s_add, s_div, s_mul, s_neg, s_sqrt, s_sub, Fx, SCALE};
use crate::material::{mat_wf, spec_default_material, Material};
use crate::matrice::{
    spec_det, spec_identity, spec_inverse_mat, spec_mul_point, spec_mul_vector, spec_transpose,
    Matrice,
};
use crate::point::Point;
use crate::ray::{spec_ray_transform, Ray};
use crate::tuple::{lemma_dot_self_nonneg, t_dot, t_magnitude, t_sub, Tuple};
use crate::vector::{v_normalize, Vector};
use vstd::prelude::*;

verus! {

/// A unit sphere, placed and shaped in the world by its transform.
#[derive(Debug, Clone, PartialEq)]
pub struct Sphere {
    pub id: String,
    pub transform: Matrice,
    pub material: Material,
}

pub open spec fn zero_tuple() -> Tuple {
    Tuple { x: Fx { raw: 0 }, y: Fx { raw: 0 }, z: Fx { raw: 0 } }
}

/// The roots of `|O + tD|^2 = 1` in object space: quadratic with
/// `a = D.D`, `b = 2 D.O`, `c = O.O - 1`. A negative discriminant is a
/// miss; so is a direction so short that `a` truncates to zero, which
/// leaves the quadratic without a leading term.
pub open spec fn spec_sphere_local(r: Ray) -> Option<Seq<Fx>> {
    let sphere_to_ray = t_sub(r.origin.position, zero_tuple());
    let a = t_dot(r.direction.position, r.direction.position);
    let b = s_mul(Fx { raw: (2 * SCALE) as i64 }, t_dot(r.direction.position, sphere_to_ray));
    let c = s_sub(t_dot(sphere_to_ray, sphere_to_ray), Fx { raw: SCALE as i64 });
    let disc = s_sub(s_mul(b, b), s_mul(s_mul(Fx { raw: (4 * SCALE) as i64 }, a), c));
    if disc.raw < 0 || a.raw == 0 {
        None
    } else {
        let sq = s_sqrt(disc);
        let denom = s_mul(Fx { raw: (2 * SCALE) as i64 }, a);
        Some(
            seq![
                s_div(s_sub(s_neg(b), sq), denom),
                s_div(s_add(s_neg(b), sq), denom),
            ],
        )
    }
}

/// World-space intersection: the ray pulled into object space by the
/// inverse transform, then the local quadratic; nothing when the
/// transform has no inverse.
pub open spec fn spec_sphere_intersect(s: Sphere, r: Ray) -> Option<Seq<Fx>> {
    if spec_det(s.transform@).raw == 0 {
        None
    } else {
        spec_sphere_local(spec_ray_transform(r, spec_inverse_mat(s.transform@)))
    }
}

/// The world normal: the point pulled into object space, the local
/// normal (the point itself as a vector), pushed back out through the
/// transposed inverse, re-normalized. Nothing when the transform has no
/// inverse or the pushed-out normal has no length left.
pub open spec fn spec_sphere_normal(s: Sphere, world_point: Tuple) -> Option<Tuple> {
    if spec_det(s.transform@).raw == 0 {
        None
    } else {
        let inv = spec_inverse_mat(s.transform@);
        let object_point = spec_mul_point(inv, world_point);
        let object_normal = t_sub(object_point, zero_tuple());
        let world_normal = spec_mul_vector(spec_transpose(inv), object_normal);
        if t_magnitude(world_normal).raw == 0 {
            None
        } else {
            Some(v_normalize(world_normal))
        }
    }
}

impl Sphere {
    pub open spec fn wf(&self) -> bool {
        &&& self.transform.wf()
        &&& self.transform.size == 4
        &&& mat_wf(self.material)
    }

    /// A sphere under the given transform and material, with a fresh
    /// identity.
    pub fn new(transform: Matrice, material: Material) -> (r: Sphere)
        requires
            transform.wf(),
            transform.size == 4,
            mat_wf(material),
        ensures
            r.wf(),
            r.transform == transform,
            r.material == material,
            r.id@.len() == 36,
    {
        Sphere { id: crate::ids::fresh_id(), transform, material }
    }

    /// The quadratic in object space; `None` is a miss.
    pub fn local_intersect(&self, r: &Ray) -> (res: Option<Vec<Fx>>)
        ensures
            match res {
                Some(v) => spec_sphere_local(*r) == Some(v@),
                None => spec_sphere_local(*r) is None,
            },
    {
        let two = Fx { raw: 2 * SCALE };
        let four = Fx { raw: 4 * SCALE };
        let sphere_to_ray = r.origin.sub(Point::origin());
        let a = r.direction.dot_product(&r.direction);
        let b = two.mul(r.direction.dot_product(&sphere_to_ray));
        let c = sphere_to_ray.dot_product(&sphere_to_ray).sub(Fx { raw: SCALE });
        let disc = b.mul(b).sub(four.mul(a).mul(c));
        if disc.raw < 0 || a.raw == 0 {
            return None;
        }
        let sq = disc.sqrt();
        let denom = two.mul(a);
        proof {
            lemma_dot_self_nonneg(r.direction.position);
            assert(denom.raw as int == crate::fixed::sat64(
                crate::fixed::div_trunc(
                    (2 * SCALE) as int * a.raw,
                    SCALE as int,
                ),
            ));
            assert(crate::fixed::div_trunc((2 * SCALE) as int * a.raw, SCALE as int) == 2 * (
            a.raw as int)) by (nonlinear_arith)
                requires
                    a.raw > 0,
            ;
        }
        let t1 = b.neg().sub(sq).div(denom);
        let t2 = b.neg().add(sq).div(denom);
        let mut out: Vec<Fx> = Vec::new();
        out.push(t1);
        out.push(t2);
        proof {
            assert(out@ =~= spec_sphere_local(*r)->Some_0);
        }
        Some(out)
    }

    /// World-space intersection through the inverse transform.
    pub fn intersect(&self, r: &Ray) -> (res: Option<Vec<Fx>>)
        requires
            self.wf(),
        ensures
            match res {
                Some(v) => spec_sphere_intersect(*self, *r) == Some(v@),
                None => spec_sphere_intersect(*self, *r) is None,
            },
    {
        let inv = match self.transform.inverse() {
            Some(m) => m,
            None => {
                return None;
            },
        };
        let local_ray = r.transform(&inv);
        self.local_intersect(&local_ray)
    }

    /// The local normal: the object-space point read as a vector.
    pub fn local_normal_at(&self, local_point: Point) -> (r: Vector)
        ensures
            r.position == t_sub(local_point.position, zero_tuple()),
    {
        local_point.sub(Point::origin())
    }

    /// The world normal at a world point, or nothing when the transform
    /// has no inverse or the normal degenerates.
    pub fn normal_at(&self, world_point: Point) -> (res: Option<Vector>)
        requires
            self.wf(),
        ensures
            match res {
                Some(v) => spec_sphere_normal(*self, world_point.position) == Some(v.position),
                None => spec_sphere_normal(*self, world_point.position) is None,
            },
    {
        let inv = match self.transform.inverse() {
            Some(m) => m,
            None => {
                return None;
            },
        };
        let object_point = inv.mul_point(&world_point);
        let object_normal = object_point.sub(Point::origin());
        let world_normal = inv.transpose().mul_vector(&object_normal);
        if world_normal.magnitude().raw == 0 {
            return None;
        }
        Some(world_normal.normalize())
    }

    pub fn get_transform(&self) -> (r: &Matrice)
        ensures
            *r == self.transform,
    {
        &self.transform
    }

    pub fn set_transform(&mut self, transform: Matrice)
        requires
            transform.wf(),
            transform.size == 4,
        ensures
            final(self).transform == transform,
            final(self).material == old(self).material,
            final(self).id == old(self).id,
    {
        self.transform = transform;
    }

    pub fn get_material(&self) -> (r: &Material)
        ensures
            *r == self.material,
    {
        &self.material
    }

    pub fn set_material(&mut self, material: Material)
        requires
            mat_wf(material),
        ensures
            final(self).material == material,
            final(self).transform == old(self).transform,
            final(self).id == old(self).id,
    {
        self.material = material;
    }

    pub fn get_shape_id(&self) -> (r: String)
        ensures
            r@ == self.id@,
    {
        self.id.clone()
    }
}

/// A sphere under the identity transform, at any point lying exactly
/// on its unit surface (the dot square of the point is exactly one),
/// reports the point itself as its normal — exactly unit length, with
/// no rounding at all.
pub proof fn lemma_identity_sphere_normal_unit(s: Sphere, p: Tuple)
    requires
        s.transform@ == spec_identity(4),
        t_dot(p, p) == (Fx { raw: SCALE as i64 }),
    ensures
        spec_sphere_normal(s, p) == Some(p),
        t_magnitude(p) == (Fx { raw: SCALE as i64 }),
{
    let one = Fx { raw: SCALE as i64 };
    crate::matrice::lemma_inverse_identity4();
    crate::matrice::lemma_transpose_identity();
    crate::matrice::lemma_identity_applications(p);
    crate::matrice::lemma_fx_unit_ops(p.x);
    crate::matrice::lemma_fx_unit_ops(p.y);
    crate::matrice::lemma_fx_unit_ops(p.z);
    assert(t_sub(p, zero_tuple()) == p);
    assert(crate::fixed::is_isqrt(SCALE as int * SCALE as int, SCALE as int))
        by (nonlinear_arith);
    crate::fixed::lemma_isqrt_is(SCALE as int * SCALE as int, SCALE as int);
    assert(t_magnitude(p) == one);
    assert(v_normalize(p) == p);
}

impl Default for Sphere {
    /// A unit sphere with the identity transform and default material.
    fn default() -> (r: Sphere)
        ensures
            r.wf(),
            r.transform@ == spec_identity(4),
            r.transform.size == 4,
            r.material == spec_default_material(),
            r.id@.len() == 36,
    {
        Sphere::new(Matrice::identity_matrix(4), Material::default())
    }
}

} // verus!
