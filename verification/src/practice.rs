//! Ready-made demonstration scenes, rendered to a canvas that a caller
//! serializes.
//!
//! Angles appear here only through their precomputed cosines, sines
//! and half-view tangents, held as fixed-point constants.

use crate::camera::Camera;
use crate::canvas::Canvas;
use crate::color::Color;
use crate::consts::white;
use crate::fixed::{Fx, SCALE};
use crate::light::Light;
use crate::material::Material;
use crate::matrice::Matrice;
use crate::point::Point;
use crate::shape::{plane::Plane, sphere::Sphere, Shape};
use crate::transformations::{
    rotation_x, rotation_y, scaling, translation, view_transformation_checked,
};
use crate::vector::Vector;
use crate::world::World;
use vstd::prelude::*;

verus! {

/// cos and sin of a quarter turn's half, 45 degrees.
pub const COS_PI_4: i64 = 707_106_781;

/// cos of 60 degrees.
pub const COS_PI_3: i64 = 500_000_000;

/// sin of 60 degrees.
pub const SIN_PI_3: i64 = 866_025_404;

/// The angle 60 degrees in radians.
pub const RAD_PI_3: i64 = 1_047_197_551;

/// The angle 30 degrees in radians.
pub const RAD_PI_6: i64 = 523_598_776;

/// tan of 30 degrees, the half view of a 60 degree field.
pub const TAN_PI_6: i64 = 577_350_269;

/// tan of 15 degrees, the half view of a 30 degree field.
pub const TAN_PI_12: i64 = 267_949_192;

fn matte_material(r: i64, g: i64, b: i64, diffuse: i64, specular: i64) -> (m: Material)
    ensures
        m == (Material {
            color: Color {
                rgb: crate::tuple::Tuple { x: Fx { raw: r }, y: Fx { raw: g }, z: Fx { raw: b } },
            },
            ambient: Fx { raw: 100_000_000 },
            diffuse: Fx { raw: diffuse },
            specular: Fx { raw: specular },
            shininess: Fx { raw: (200 * SCALE) as i64 },
            pattern: None,
        }),
{
    Material::new(
        Color::new(Fx { raw: r }, Fx { raw: g }, Fx { raw: b }),
        Fx { raw: 100_000_000 },
        Fx { raw: diffuse },
        Fx { raw: specular },
        Fx { raw: 200 * SCALE },
        None,
    )
}

/// A floor, two angled walls and three spheres under a single light,
/// seen by an 800 by 400 camera: the classic first full scene.
pub fn draw_sphere() -> (r: Canvas)
    ensures
        r.wf(),
        r.width == 800,
        r.height == 400,
{
    let floor = Plane::new(
        Matrice::identity_matrix(4),
        matte_material(SCALE, 900_000_000, 900_000_000, 900_000_000, 0),
    );
    let cos45 = Fx { raw: COS_PI_4 };
    let sin45 = Fx { raw: COS_PI_4 };
    let cos90 = Fx { raw: 0 };
    let sin90 = Fx { raw: SCALE };
    let six = Fx::from_int(6);
    let zero = Fx { raw: 0 };
    let left_wall = Plane::new(
        translation(zero, zero, six).mul(&rotation_y(cos45, sin45)).mul(
            &rotation_x(cos90, sin90),
        ),
        matte_material(SCALE, 900_000_000, 900_000_000, 900_000_000, 0),
    );
    let right_wall = Plane::new(
        translation(zero, zero, six).mul(&rotation_y(cos45, sin45.neg())).mul(
            &rotation_x(cos90, sin90),
        ),
        matte_material(SCALE, 900_000_000, 900_000_000, 900_000_000, 0),
    );
    let middle = Sphere::new(
        translation(Fx { raw: -500_000_000 }, Fx { raw: SCALE }, Fx { raw: 500_000_000 }),
        matte_material(100_000_000, SCALE, 500_000_000, 700_000_000, 300_000_000),
    );
    let half = Fx { raw: 500_000_000 };
    let right = Sphere::new(
        translation(Fx { raw: 1_500_000_000 }, half, Fx { raw: -500_000_000 }).mul(
            &scaling(half, half, half),
        ),
        matte_material(500_000_000, SCALE, 100_000_000, 700_000_000, 300_000_000),
    );
    let third = Fx { raw: 330_000_000 };
    let left = Sphere::new(
        translation(
            Fx { raw: -1_500_000_000 },
            Fx { raw: 330_000_000 },
            Fx { raw: -750_000_000 },
        ).mul(&scaling(third, third, third)),
        matte_material(SCALE, 800_000_000, 100_000_000, 700_000_000, 300_000_000),
    );
    let mut world = World::new(
        Light::new(Point::new(Fx::from_int(-10), Fx::from_int(10), Fx::from_int(-10)), white()),
    );
    world.add_shape(Shape::Plane(floor));
    world.add_shape(Shape::Plane(right_wall));
    world.add_shape(Shape::Plane(left_wall));
    world.add_shape(Shape::Sphere(middle));
    world.add_shape(Shape::Sphere(right));
    world.add_shape(Shape::Sphere(left));
    let mut camera = Camera::new(
        Fx::from_int(800),
        Fx::from_int(400),
        Fx { raw: RAD_PI_3 },
        Fx { raw: TAN_PI_6 },
    );
    let from = Point::new(zero, Fx { raw: 1_500_000_000 }, Fx::from_int(-5));
    let to = Point::new(zero, Fx { raw: SCALE }, zero);
    let up = Vector::new(zero, Fx { raw: SCALE }, zero);
    camera.transform = match view_transformation_checked(from, to, up) {
        Some(m) => m,
        // unreachable for this eye and target, which stand apart
        None => Matrice::identity_matrix(4),
    };
    camera.render(&world)
}

/// A floor and four walls turned about the y axis, seen from high
/// above by a small 100 by 100 camera.
pub fn draw_hexagonal_room() -> (r: Canvas)
    ensures
        r.wf(),
        r.width == 100,
        r.height == 100,
{
    let floor = Plane::new(
        Matrice::identity_matrix(4),
        matte_material(SCALE, 900_000_000, 900_000_000, 900_000_000, 0),
    );
    let cos60 = Fx { raw: COS_PI_3 };
    let sin60 = Fx { raw: SIN_PI_3 };
    let cos90 = Fx { raw: 0 };
    let sin90 = Fx { raw: SCALE };
    let six = Fx::from_int(6);
    let zero = Fx { raw: 0 };
    let first_wall = Plane::new(
        rotation_y(cos60, sin60).mul(&translation(zero, zero, six)).mul(
            &rotation_x(cos90, sin90),
        ),
        matte_material(SCALE, 900_000_000, 900_000_000, 900_000_000, 0),
    );
    let second_wall = Plane::new(
        rotation_y(cos60.neg(), sin60).mul(&translation(zero, zero, six)).mul(
            &rotation_x(cos90, sin90),
        ),
        matte_material(SCALE, 900_000_000, 900_000_000, 900_000_000, 0),
    );
    let third_wall = Plane::new(
        rotation_y(cos60, sin60).mul(&translation(zero, zero, six)).mul(
            &rotation_x(cos90, sin90),
        ),
        matte_material(SCALE, 900_000_000, 900_000_000, 900_000_000, 0),
    );
    let fourth_wall = Plane::new(
        rotation_y(cos60.neg(), sin60.neg()).mul(&translation(zero, zero, six)).mul(
            &rotation_x(cos90, sin90),
        ),
        matte_material(SCALE, 900_000_000, 900_000_000, 900_000_000, 0),
    );
    let mut world = World::new(
        Light::new(Point::new(Fx::from_int(-10), Fx::from_int(10), Fx::from_int(-10)), white()),
    );
    world.add_shape(Shape::Plane(floor));
    world.add_shape(Shape::Plane(first_wall));
    world.add_shape(Shape::Plane(second_wall));
    world.add_shape(Shape::Plane(third_wall));
    world.add_shape(Shape::Plane(fourth_wall));
    let mut camera = Camera::new(
        Fx::from_int(100),
        Fx::from_int(100),
        Fx { raw: RAD_PI_6 },
        Fx { raw: TAN_PI_12 },
    );
    let from = Point::new(zero, Fx::from_int(30), zero);
    let to = Point::new(Fx::from_int(2), Fx { raw: SCALE }, zero);
    let up = Vector::new(zero, Fx { raw: SCALE }, zero);
    camera.transform = match view_transformation_checked(from, to, up) {
        Some(m) => m,
        // unreachable for this eye and target, which stand apart
        None => Matrice::identity_matrix(4),
    };
    camera.render(&world)
}

} // verus!
