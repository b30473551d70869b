//! The pinhole camera: viewport geometry and per-pixel rays.
//!
//! The field of view enters twice: as the angle itself, kept for
//! inspection, and as the tangent of half the angle, which the caller
//! evaluates since the tangent is transcendental.

use crate::canvas::Canvas;
use crate::color::Color;
use crate::consts::spec_black;
use crate::fixed::{fx, s_add, s_div, s_mul, s_sub, Fx, SCALE};
use crate::matrice::{spec_det, spec_identity, spec_inverse_mat, spec_mul_point, Matrice};
use crate::point::Point;
use crate::ray::Ray;
use crate::tuple::{t_magnitude, t_sub, Tuple};
use crate::vector::{v_normalize, Vector};
use crate::world::{spec_color_at, World};
use vstd::prelude::*;

verus! {

/// Viewport sizes in pixels (held as scalars), the field of view, the
/// world-from-camera transform, and the derived pixel geometry.
#[derive(Debug)]
pub struct Camera {
    pub hsize: Fx,
    pub vsize: Fx,
    pub field_of_view: Fx,
    pub transform: Matrice,
    pub pixel_size: Fx,
    pub half_width: Fx,
    pub half_height: Fx,
}

/// Half the viewport width in world units: the half view anchored to
/// the longer dimension through the aspect ratio.
pub open spec fn spec_half_width(hsize: Fx, vsize: Fx, half_view: Fx) -> Fx {
    if s_div(hsize, vsize).raw >= SCALE {
        half_view
    } else {
        s_mul(half_view, s_div(hsize, vsize))
    }
}

pub open spec fn spec_half_height(hsize: Fx, vsize: Fx, half_view: Fx) -> Fx {
    if s_div(hsize, vsize).raw >= SCALE {
        s_div(half_view, s_div(hsize, vsize))
    } else {
        half_view
    }
}

/// The world-space span of one pixel.
pub open spec fn spec_pixel_size(hsize: Fx, vsize: Fx, half_view: Fx) -> Fx {
    s_div(s_mul(spec_half_width(hsize, vsize, half_view), Fx { raw: (2 * SCALE) as i64 }), hsize)
}

/// The ray through the center of pixel `(px, py)`: offsets from the
/// top-left corner, pulled through the inverse camera transform into
/// the world. Nothing when the camera transform has no inverse — a
/// configuration error — or when the transformed pixel collapses onto
/// the camera origin.
pub open spec fn spec_ray_for_pixel(c: Camera, px: Fx, py: Fx) -> Option<Ray> {
    if spec_det(c.transform@).raw == 0 {
        None
    } else {
        let inv = spec_inverse_mat(c.transform@);
        let xoffset = s_mul(s_add(px, Fx { raw: (SCALE / 2) as i64 }), c.pixel_size);
        let yoffset = s_mul(s_add(py, Fx { raw: (SCALE / 2) as i64 }), c.pixel_size);
        let world_x = s_sub(c.half_width, xoffset);
        let world_y = s_sub(c.half_height, yoffset);
        let pixel = spec_mul_point(
            inv,
            Tuple { x: world_x, y: world_y, z: Fx { raw: -SCALE as int as i64 } },
        );
        let origin = spec_mul_point(
            inv,
            Tuple { x: Fx { raw: 0 }, y: Fx { raw: 0 }, z: Fx { raw: 0 } },
        );
        let dirv = t_sub(pixel, origin);
        if t_magnitude(dirv).raw == 0 {
            None
        } else {
            Some(
                Ray {
                    origin: Point { position: origin },
                    direction: Vector { position: v_normalize(dirv) },
                },
            )
        }
    }
}

/// The color the camera sees through pixel `(x, y)`: black where the
/// pixel ray cannot be formed.
pub open spec fn spec_pixel_color(c: Camera, w: &World, x: int, y: int) -> Color {
    match spec_ray_for_pixel(c, fx(x * SCALE), fx(y * SCALE)) {
        None => spec_black(),
        Some(ray) => spec_color_at(w.shapes@, w.light, ray),
    }
}

impl Camera {
    pub open spec fn wf(&self) -> bool {
        &&& self.transform.wf()
        &&& self.transform.size == 4
    }

    /// A camera over the identity transform. `half_view` is the
    /// tangent of half the field of view, evaluated by the caller.
    pub fn new(hsize: Fx, vsize: Fx, field_of_view: Fx, half_view: Fx) -> (r: Camera)
        requires
            hsize.raw > 0,
            vsize.raw > 0,
        ensures
            r.wf(),
            r.hsize == hsize,
            r.vsize == vsize,
            r.field_of_view == field_of_view,
            r.transform@ == spec_identity(4),
            r.transform.size == 4,
            r.half_width == spec_half_width(hsize, vsize, half_view),
            r.half_height == spec_half_height(hsize, vsize, half_view),
            r.pixel_size == spec_pixel_size(hsize, vsize, half_view),
    {
        let aspect = hsize.div(vsize);
        let half_width: Fx;
        let half_height: Fx;
        if aspect.raw >= SCALE {
            half_width = half_view;
            half_height = half_view.div(aspect);
        } else {
            half_width = half_view.mul(aspect);
            half_height = half_view;
        }
        let two = Fx { raw: 2 * SCALE };
        Camera {
            hsize,
            vsize,
            field_of_view,
            transform: Matrice::identity_matrix(4),
            pixel_size: half_width.mul(two).div(hsize),
            half_width,
            half_height,
        }
    }

    /// The world-space ray through the center of pixel `(px, py)`.
    pub fn ray_for_pixel(&self, px: Fx, py: Fx) -> (res: Option<Ray>)
        requires
            self.wf(),
        ensures
            match res {
                Some(r) => spec_ray_for_pixel(*self, px, py) == Some(r),
                None => spec_ray_for_pixel(*self, px, py) is None,
            },
    {
        let inv = match self.transform.inverse() {
            Some(m) => m,
            None => {
                return None;
            },
        };
        let half = Fx { raw: SCALE / 2 };
        let xoffset = px.add(half).mul(self.pixel_size);
        let yoffset = py.add(half).mul(self.pixel_size);
        let world_x = self.half_width.sub(xoffset);
        let world_y = self.half_height.sub(yoffset);
        let pixel = inv.mul_point(&Point::new(world_x, world_y, Fx { raw: -SCALE }));
        let origin = inv.mul_point(&Point::origin());
        let dirv = pixel.sub(origin);
        if dirv.magnitude().raw == 0 {
            return None;
        }
        let direction = dirv.normalize();
        Some(Ray::new(origin, direction))
    }

    /// Trace every pixel of the viewport: the canvas holds, pixel for
    /// pixel, the color its ray sees.
    pub fn render(&self, world: &World) -> (r: Canvas)
        requires
            self.wf(),
            world.wf(),
            self.hsize.raw > 0,
            self.vsize.raw > 0,
            crate::fixed::s_floor_units(self.hsize) <= usize::MAX,
            crate::fixed::s_floor_units(self.vsize) <= usize::MAX,
        ensures
            r.wf(),
            r.width as int == crate::fixed::s_floor_units(self.hsize),
            r.height as int == crate::fixed::s_floor_units(self.vsize),
            forall|y: int, x: int|
                0 <= y < r.height && 0 <= x < r.width ==> (#[trigger] r@[y][x])
                    == spec_pixel_color(*self, world, x, y),
    {
        let wpx_i = self.hsize.floor_units();
        let hpx_i = self.vsize.floor_units();
        proof {
            vstd::arithmetic::div_mod::lemma_div_pos_is_pos(self.hsize.raw as int, SCALE as int);
            vstd::arithmetic::div_mod::lemma_div_pos_is_pos(self.vsize.raw as int, SCALE as int);
        }
        let wpx = wpx_i as usize;
        let hpx = hpx_i as usize;
        let mut canvas = Canvas::new(wpx, hpx);
        let mut y: usize = 0;
        while y < hpx
            invariant
                y <= hpx,
                self.wf(),
                world.wf(),
                canvas.wf(),
                canvas.width == wpx,
                canvas.height == hpx,
                wpx <= 0x7FFFFFFFFFFFFFFF,
                hpx <= 0x7FFFFFFFFFFFFFFF,
                forall|yy: int, xx: int|
                    0 <= yy < y && 0 <= xx < wpx ==> (#[trigger] canvas@[yy][xx])
                        == spec_pixel_color(*self, world, xx, yy),
            decreases hpx - y,
        {
            let mut x: usize = 0;
            while x < wpx
                invariant
                    y < hpx,
                    x <= wpx,
                    self.wf(),
                    world.wf(),
                    canvas.wf(),
                    canvas.width == wpx,
                    canvas.height == hpx,
                    wpx <= 0x7FFFFFFFFFFFFFFF,
                    hpx <= 0x7FFFFFFFFFFFFFFF,
                    forall|yy: int, xx: int|
                        0 <= yy < y && 0 <= xx < wpx ==> (#[trigger] canvas@[yy][xx])
                            == spec_pixel_color(*self, world, xx, yy),
                    forall|xx: int|
                        0 <= xx < x ==> (#[trigger] canvas@[y as int][xx]) == spec_pixel_color(
                            *self,
                            world,
                            xx,
                            y as int,
                        ),
                decreases wpx - x,
            {
                let px = Fx::from_int(x as i64);
                let py = Fx::from_int(y as i64);
                let color = match self.ray_for_pixel(px, py) {
                    Some(ray) => world.color_at(&ray),
                    None => crate::consts::black(),
                };
                canvas.write_pixel(x, y, color);
                x += 1;
            }
            y += 1;
        }
        canvas
    }
}

} // verus!
