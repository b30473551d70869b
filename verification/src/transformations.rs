//! Builders for the affine transform matrices.
//!
//! The rotation builders take the cosine and sine of the angle as
//! fixed-point scalars, since the trigonometric functions themselves are
//! transcendental and live outside this library; a caller evaluates them
//! once and hands the two values in.

use crate::fixed::{s_neg, Fx, SCALE};
use crate::matrice::{spec_identity, spec_mat_mul, Matrice};
use crate::point::Point;
use crate::tuple::{t_magnitude, t_neg, t_sub, Tuple};
use crate::vector::{v_cross, v_normalize, Vector};
use vstd::prelude::*;

verus! {

pub open spec fn spec_translation(x: Fx, y: Fx, z: Fx) -> Seq<Seq<Fx>> {
    spec_identity(4).update(0, spec_identity(4)[0].update(3, x)).update(
        1,
        spec_identity(4)[1].update(3, y),
    ).update(2, spec_identity(4)[2].update(3, z))
}

pub open spec fn spec_scaling(x: Fx, y: Fx, z: Fx) -> Seq<Seq<Fx>> {
    spec_identity(4).update(0, spec_identity(4)[0].update(0, x)).update(
        1,
        spec_identity(4)[1].update(1, y),
    ).update(2, spec_identity(4)[2].update(2, z))
}

pub open spec fn spec_rotation_x(cos_r: Fx, sin_r: Fx) -> Seq<Seq<Fx>> {
    spec_identity(4).update(
        1,
        spec_identity(4)[1].update(1, cos_r).update(2, s_neg(sin_r)),
    ).update(2, spec_identity(4)[2].update(1, sin_r).update(2, cos_r))
}

pub open spec fn spec_rotation_y(cos_r: Fx, sin_r: Fx) -> Seq<Seq<Fx>> {
    spec_identity(4).update(
        0,
        spec_identity(4)[0].update(0, cos_r).update(2, sin_r),
    ).update(2, spec_identity(4)[2].update(0, s_neg(sin_r)).update(2, cos_r))
}

pub open spec fn spec_rotation_z(cos_r: Fx, sin_r: Fx) -> Seq<Seq<Fx>> {
    spec_identity(4).update(
        0,
        spec_identity(4)[0].update(0, cos_r).update(1, s_neg(sin_r)),
    ).update(1, spec_identity(4)[1].update(0, sin_r).update(1, cos_r))
}

pub open spec fn spec_shearing(xy: Fx, xz: Fx, yx: Fx, yz: Fx, zx: Fx, zy: Fx) -> Seq<Seq<Fx>> {
    spec_identity(4).update(
        0,
        spec_identity(4)[0].update(1, xy).update(2, xz),
    ).update(1, spec_identity(4)[1].update(0, yx).update(2, yz)).update(
        2,
        spec_identity(4)[2].update(0, zx).update(1, zy),
    )
}

/// The orientation rows of the look-at transform.
pub open spec fn spec_orientation(left: Tuple, true_up: Tuple, forward: Tuple) -> Seq<Seq<Fx>> {
    seq![
        seq![left.x, left.y, left.z, Fx { raw: 0 }],
        seq![true_up.x, true_up.y, true_up.z, Fx { raw: 0 }],
        seq![s_neg(forward.x), s_neg(forward.y), s_neg(forward.z), Fx { raw: 0 }],
        seq![Fx { raw: 0 }, Fx { raw: 0 }, Fx { raw: 0 }, Fx { raw: SCALE }],
    ]
}

/// The unit direction from the eye toward the target.
pub open spec fn spec_view_forward(from: Point, to: Point) -> Tuple {
    v_normalize(t_sub(to.position, from.position))
}

pub open spec fn spec_view_left(from: Point, to: Point, up: Vector) -> Tuple {
    v_cross(spec_view_forward(from, to), v_normalize(up.position))
}

pub open spec fn spec_view_true_up(from: Point, to: Point, up: Vector) -> Tuple {
    v_cross(spec_view_left(from, to, up), spec_view_forward(from, to))
}

/// The whole look-at matrix: orientation rows composed with a
/// translation by the negated eye position.
pub open spec fn spec_view_transformation(from: Point, to: Point, up: Vector) -> Seq<Seq<Fx>> {
    spec_mat_mul(
        spec_orientation(
            spec_view_left(from, to, up),
            spec_view_true_up(from, to, up),
            spec_view_forward(from, to),
        ),
        spec_translation(
            s_neg(from.position.x),
            s_neg(from.position.y),
            s_neg(from.position.z),
        ),
    )
}

/// Move points by `(x, y, z)`; vectors pass through unchanged.
pub fn translation(x: Fx, y: Fx, z: Fx) -> (r: Matrice)
    ensures
        r.wf(),
        r.size == 4,
        r@ == spec_translation(x, y, z),
{
    let mut out = Matrice::identity_matrix(4);
    out.write_element(0, 3, x);
    out.write_element(1, 3, y);
    out.write_element(2, 3, z);
    proof {
        assert(out@ =~~= spec_translation(x, y, z));
    }
    out
}

/// Scale each axis by its own factor.
pub fn scaling(x: Fx, y: Fx, z: Fx) -> (r: Matrice)
    ensures
        r.wf(),
        r.size == 4,
        r@ == spec_scaling(x, y, z),
{
    let mut out = Matrice::identity_matrix(4);
    out.write_element(0, 0, x);
    out.write_element(1, 1, y);
    out.write_element(2, 2, z);
    proof {
        assert(out@ =~~= spec_scaling(x, y, z));
    }
    out
}

/// Rotation about the x axis, given the cosine and sine of the angle.
pub fn rotation_x(cos_r: Fx, sin_r: Fx) -> (r: Matrice)
    ensures
        r.wf(),
        r.size == 4,
        r@ == spec_rotation_x(cos_r, sin_r),
{
    let mut out = Matrice::identity_matrix(4);
    out.write_element(1, 1, cos_r);
    out.write_element(1, 2, sin_r.neg());
    out.write_element(2, 1, sin_r);
    out.write_element(2, 2, cos_r);
    proof {
        assert(out@ =~~= spec_rotation_x(cos_r, sin_r));
    }
    out
}

/// Rotation about the y axis, given the cosine and sine of the angle.
pub fn rotation_y(cos_r: Fx, sin_r: Fx) -> (r: Matrice)
    ensures
        r.wf(),
        r.size == 4,
        r@ == spec_rotation_y(cos_r, sin_r),
{
    let mut out = Matrice::identity_matrix(4);
    out.write_element(0, 0, cos_r);
    out.write_element(0, 2, sin_r);
    out.write_element(2, 0, sin_r.neg());
    out.write_element(2, 2, cos_r);
    proof {
        assert(out@ =~~= spec_rotation_y(cos_r, sin_r));
    }
    out
}

/// Rotation about the z axis, given the cosine and sine of the angle.
pub fn rotation_z(cos_r: Fx, sin_r: Fx) -> (r: Matrice)
    ensures
        r.wf(),
        r.size == 4,
        r@ == spec_rotation_z(cos_r, sin_r),
{
    let mut out = Matrice::identity_matrix(4);
    out.write_element(0, 0, cos_r);
    out.write_element(0, 1, sin_r.neg());
    out.write_element(1, 0, sin_r);
    out.write_element(1, 1, cos_r);
    proof {
        assert(out@ =~~= spec_rotation_z(cos_r, sin_r));
    }
    out
}

/// Shear each coordinate in proportion to the other two.
pub fn shearing(xy: Fx, xz: Fx, yx: Fx, yz: Fx, zx: Fx, zy: Fx) -> (r: Matrice)
    ensures
        r.wf(),
        r.size == 4,
        r@ == spec_shearing(xy, xz, yx, yz, zx, zy),
{
    let mut out = Matrice::identity_matrix(4);
    out.write_element(0, 1, xy);
    out.write_element(0, 2, xz);
    out.write_element(1, 0, yx);
    out.write_element(1, 2, yz);
    out.write_element(2, 0, zx);
    out.write_element(2, 1, zy);
    proof {
        assert(out@ =~~= spec_shearing(xy, xz, yx, yz, zx, zy));
    }
    out
}

/// The look-at transform: world seen from an eye at `from` looking
/// toward `to` with `up` overhead. The eye must not sit on the target
/// and `up` must have length.
pub fn view_transformation(from: Point, to: Point, up: Vector) -> (r: Matrice)
    requires
        t_magnitude(t_sub(to.position, from.position)).raw != 0,
        t_magnitude(up.position).raw != 0,
    ensures
        r.wf(),
        r.size == 4,
        r@ == spec_view_transformation(from, to, up),
{
    let forward = to.sub(from).normalize();
    let left = forward.cross_product(&up.normalize());
    let true_up = left.cross_product(&forward);
    let mut orientation = Matrice::identity_matrix(4);
    orientation.write_element(0, 0, left.position.x);
    orientation.write_element(0, 1, left.position.y);
    orientation.write_element(0, 2, left.position.z);
    orientation.write_element(1, 0, true_up.position.x);
    orientation.write_element(1, 1, true_up.position.y);
    orientation.write_element(1, 2, true_up.position.z);
    orientation.write_element(2, 0, forward.position.x.neg());
    orientation.write_element(2, 1, forward.position.y.neg());
    orientation.write_element(2, 2, forward.position.z.neg());
    proof {
        assert(orientation@ =~~= spec_orientation(
            spec_view_left(from, to, up),
            spec_view_true_up(from, to, up),
            spec_view_forward(from, to),
        ));
    }
    let shift = translation(from.position.x.neg(), from.position.y.neg(), from.position.z.neg());
    orientation.mul(&shift)
}

/// `view_transformation` behind a runtime check of its preconditions:
/// nothing when the eye sits on the target or `up` has no length.
pub fn view_transformation_checked(from: Point, to: Point, up: Vector) -> (r: Option<Matrice>)
    ensures
        match r {
            None => t_magnitude(t_sub(to.position, from.position)).raw == 0 || t_magnitude(
                up.position,
            ).raw == 0,
            Some(m) => {
                &&& t_magnitude(t_sub(to.position, from.position)).raw != 0
                &&& t_magnitude(up.position).raw != 0
                &&& m.wf()
                &&& m.size == 4
                &&& m@ == spec_view_transformation(from, to, up)
            },
        },
{
    let fm = to.sub(from).magnitude();
    let um = up.magnitude();
    if fm.raw == 0 || um.raw == 0 {
        None
    } else {
        Some(view_transformation(from, to, up))
    }
}

} // verus!
