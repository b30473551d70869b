//! An RGB color, unbounded during shading and clamped only for output.

use crate::fixed::{Fx, SCALE};
use crate::tuple::{t_add, t_approx, t_hadamard, t_scale, t_sub, Tuple};
use vstd::prelude::*;

verus! {

/// Red, green and blue channels held in a tuple. Channel values are free
/// to leave `[0, 1]` while light adds up; only the image-output step
/// clamps them.
#[derive(Clone, Copy, Debug, PartialEq, Eq, Structural)]
pub struct Color {
    pub rgb: Tuple,
}

/// One channel pulled back into `[0, 1]`.
pub open spec fn clamp01(a: Fx) -> Fx {
    if a.raw < 0 {
        Fx { raw: 0 }
    } else if a.raw > SCALE {
        Fx { raw: SCALE }
    } else {
        a
    }
}

pub open spec fn c_clamp(c: Color) -> Color {
    Color {
        rgb: Tuple { x: clamp01(c.rgb.x), y: clamp01(c.rgb.y), z: clamp01(c.rgb.z) },
    }
}

/// One clamped channel scaled to `[0, 255]`, rounded to nearest.
pub open spec fn channel_byte(a: Fx) -> int {
    (clamp01(a).raw * 255 + SCALE / 2) / (SCALE as int)
}

impl Color {
    pub fn new(r: Fx, g: Fx, b: Fx) -> (c: Color)
        ensures
            c.rgb == (Tuple { x: r, y: g, z: b }),
    {
        Color { rgb: Tuple { x: r, y: g, z: b } }
    }

    pub fn add(self, rhs: Color) -> (r: Color)
        ensures
            r.rgb == t_add(self.rgb, rhs.rgb),
    {
        Color { rgb: self.rgb.add(rhs.rgb) }
    }

    pub fn sub(self, rhs: Color) -> (r: Color)
        ensures
            r.rgb == t_sub(self.rgb, rhs.rgb),
    {
        Color { rgb: self.rgb.sub(rhs.rgb) }
    }

    pub fn mul_scalar(self, k: Fx) -> (r: Color)
        ensures
            r.rgb == t_scale(self.rgb, k),
    {
        Color { rgb: self.rgb.scale(k) }
    }

    /// Componentwise product: filtering one color through another.
    pub fn mul_color(self, rhs: Color) -> (r: Color)
        ensures
            r.rgb == t_hadamard(self.rgb, rhs.rgb),
    {
        Color { rgb: self.rgb.hadamard(rhs.rgb) }
    }

    /// Pull every channel back into `[0, 1]`.
    pub fn clamp(self) -> (r: Color)
        ensures
            r == c_clamp(self),
    {
        Color {
            rgb: Tuple {
                x: clamp_channel(self.rgb.x),
                y: clamp_channel(self.rgb.y),
                z: clamp_channel(self.rgb.z),
            },
        }
    }

    /// The clamped channels scaled to whole values in `[0, 255]`,
    /// ready for plain-text image output.
    pub fn bytes(self) -> (r: (u8, u8, u8))
        ensures
            r.0 as int == channel_byte(self.rgb.x),
            r.1 as int == channel_byte(self.rgb.y),
            r.2 as int == channel_byte(self.rgb.z),
    {
        (byte_of(self.rgb.x), byte_of(self.rgb.y), byte_of(self.rgb.z))
    }

    pub fn approx_eq(&self, rhs: &Color) -> (r: bool)
        ensures
            r == t_approx(self.rgb, rhs.rgb),
    {
        self.rgb.approx_eq(&rhs.rgb)
    }
}

fn clamp_channel(a: Fx) -> (r: Fx)
    ensures
        r == clamp01(a),
{
    if a.raw < 0 {
        Fx { raw: 0 }
    } else if a.raw > SCALE {
        Fx { raw: SCALE }
    } else {
        a
    }
}

fn byte_of(a: Fx) -> (r: u8)
    ensures
        r as int == channel_byte(a),
{
    let c = clamp_channel(a);
    let n: i64 = c.raw * 255 + SCALE / 2;
    let b: i64 = n / SCALE;
    proof {
        vstd::arithmetic::div_mod::lemma_div_pos_is_pos(n as int, SCALE as int);
        vstd::arithmetic::div_mod::lemma_div_is_ordered(
            n as int,
            255 * (SCALE as int) + SCALE as int / 2,
            SCALE as int,
        );
        assert((255 * (SCALE as int) + SCALE as int / 2) / (SCALE as int) == 255);
    }
    b as u8
}

/// Clamping is idempotent: pixels already written out, read back and
/// clamped again come out unchanged.
pub proof fn lemma_clamp_idempotent(c: Color)
    ensures
        c_clamp(c_clamp(c)) == c_clamp(c),
{
}

/// The output step as a whole is stable: the byte a channel maps to is
/// unchanged when the channel is clamped first.
pub proof fn lemma_byte_of_clamped(a: Fx)
    ensures
        channel_byte(clamp01(a)) == channel_byte(a),
{
}

} // verus!
