//! Pixels and fixed-size RGBA pixel buffers.

use vstd::prelude::*;

verus! {

/// One pixel: four 8-bit channels, red, green, blue, alpha.
#[derive(Clone, Copy, PartialEq, Eq, Structural, Debug)]
pub struct Pixel {
    pub r: u8,
    pub g: u8,
    pub b: u8,
    pub a: u8,
}

impl Pixel {
    /// A pixel counts as (background) white when all three color channels
    /// are at full value; the alpha channel plays no part in this test.
    pub open spec fn is_white(self) -> bool {
        self.r == 255 && self.g == 255 && self.b == 255
    }

    pub fn new(r: u8, g: u8, b: u8, a: u8) -> (p: Pixel)
        ensures
            p == (Pixel { r, g, b, a }),
    {
        Pixel { r, g, b, a }
    }
}

/// A `width` x `height` grid of pixels stored row-major, origin top-left.
pub struct Raster {
    pub width: usize,
    pub height: usize,
    pub pixels: Vec<Pixel>,
}

impl Raster {
    /// The buffer holds exactly one pixel per grid cell.
    pub open spec fn wf(self) -> bool {
        self.pixels@.len() == self.width * self.height
    }

    /// The pixel of column `x`, row `y`.
    pub open spec fn pixel_at(self, x: int, y: int) -> Pixel {
        self.pixels@[y * self.width + x]
    }

    /// Builds a raster from a row-major buffer; refuses a buffer whose
    /// length does not match the dimensions.
    pub fn new(width: usize, height: usize, pixels: Vec<Pixel>) -> (r: Option<Raster>)
        ensures
            r is Some <==> pixels@.len() == width * height,
            r is Some ==> (r->Some_0 == Raster { width, height, pixels }) && r->Some_0.wf(),
    {
        let len: usize = pixels.len();
        match width.checked_mul(height) {
            Some(n) if n == len => Some(Raster { width, height, pixels }),
            _ => None,
        }
    }

    /// The pixel of column `x`, row `y`, as executable code.
    pub fn get(&self, x: usize, y: usize) -> (p: Pixel)
        requires
            self.wf(),
            x < self.width,
            y < self.height,
        ensures
            p == self.pixel_at(x as int, y as int),
    {
        let len: usize = self.pixels.len();
        proof {
            let w = self.width as int;
            let h = self.height as int;
            vstd::arithmetic::mul::lemma_mul_inequality(y + 1, h, w);
            assert((y + 1) * w == y * w + w) by (nonlinear_arith);
            assert(h * w == w * h) by (nonlinear_arith);
            assert(y * w + x < len);
        }
        self.pixels[y * self.width + x]
    }
}

} // verus!
