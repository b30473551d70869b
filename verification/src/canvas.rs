//! The pixel raster a render fills in.

use crate::color::Color;
use crate::consts::spec_black;
use vstd::prelude::*;

verus! {

/// A rectangle of pixels, stored by rows.
#[derive(Debug)]
pub struct Canvas {
    pub width: usize,
    pub height: usize,
    pub canvas: Vec<Vec<Color>>,
}

impl View for Canvas {
    type V = Seq<Seq<Color>>;

    open spec fn view(&self) -> Seq<Seq<Color>> {
        Seq::new(self.canvas@.len(), |i: int| self.canvas@[i]@)
    }
}

impl Canvas {
    /// `height` rows of `width` pixels each.
    pub open spec fn wf(&self) -> bool {
        &&& self@.len() == self.height
        &&& forall|i: int| 0 <= i < self.height ==> (#[trigger] self@[i]).len() == self.width
    }

    /// A canvas of the given size, every pixel black.
    pub fn new(width: usize, height: usize) -> (r: Canvas)
        ensures
            r.wf(),
            r.width == width,
            r.height == height,
            forall|y: int, x: int|
                0 <= y < height && 0 <= x < width ==> (#[trigger] r@[y][x]) == spec_black(),
    {
        let mut rows: Vec<Vec<Color>> = Vec::new();
        let mut y: usize = 0;
        while y < height
            invariant
                y <= height,
                rows@.len() == y,
                forall|i: int| 0 <= i < y ==> (#[trigger] rows@[i])@.len() == width,
                forall|i: int, j: int|
                    0 <= i < y && 0 <= j < width ==> (#[trigger] rows@[i]@[j]) == spec_black(),
            decreases height - y,
        {
            let mut row: Vec<Color> = Vec::new();
            let mut x: usize = 0;
            while x < width
                invariant
                    x <= width,
                    row@.len() == x,
                    forall|j: int| 0 <= j < x ==> (#[trigger] row@[j]) == spec_black(),
                decreases width - x,
            {
                row.push(crate::consts::black());
                x += 1;
            }
            rows.push(row);
            y += 1;
        }
        Canvas { width, height, canvas: rows }
    }

    /// Paint one pixel; the rest of the raster stays as it was.
    pub fn write_pixel(&mut self, x: usize, y: usize, color: Color)
        requires
            old(self).wf(),
            x < old(self).width,
            y < old(self).height,
        ensures
            final(self).wf(),
            final(self).width == old(self).width,
            final(self).height == old(self).height,
            final(self)@ == old(self)@.update(
                y as int,
                old(self)@[y as int].update(x as int, color),
            ),
    {
        proof {
            assert(self@[y as int] == self.canvas@[y as int]@);
        }
        self.canvas[y][x] = color;
        proof {
            assert(final(self)@ =~~= old(self)@.update(
                y as int,
                old(self)@[y as int].update(x as int, color),
            ));
        }
    }

    /// Read one pixel back.
    pub fn pixel_at(&self, x: usize, y: usize) -> (r: Color)
        requires
            self.wf(),
            x < self.width,
            y < self.height,
        ensures
            r == self@[y as int][x as int],
    {
        proof {
            assert(self@[y as int] == self.canvas@[y as int]@);
        }
        self.canvas[y][x]
    }
}

} // verus!
