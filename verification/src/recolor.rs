//! The dual-variant recolorer: background pixels become transparent,
//! foreground pixels are recolored to a single flat color.

use vstd::prelude::*;

use crate::adjust::{adjust_image, adjust_pixel_spec};
use crate::raster::{Pixel, Raster};

verus! {

/// Foreground color of the negative (black-on-transparent) variant.
pub const BLACK: u8 = 0;

/// Foreground color of the plain (white-on-transparent) variant.
pub const WHITE: u8 = 255;

/// What recoloring does to one adjusted pixel. A pure white pixel keeps
/// its color channels and has its alpha forced to 0; any other pixel has
/// its color channels set to `color` and keeps its alpha as it is, even
/// when that alpha is 0.
pub open spec fn recolor_pixel_spec(p: Pixel, color: u8) -> Pixel {
    if p.is_white() {
        Pixel { r: p.r, g: p.g, b: p.b, a: 0 }
    } else {
        Pixel { r: color, g: color, b: color, a: p.a }
    }
}

/// The black variant of an input pixel: adjusted, then recolored to black.
pub open spec fn black_variant_spec(p: Pixel) -> Pixel {
    recolor_pixel_spec(adjust_pixel_spec(p), BLACK)
}

/// The white variant of an input pixel: adjusted, then recolored to white.
pub open spec fn white_variant_spec(p: Pixel) -> Pixel {
    recolor_pixel_spec(adjust_pixel_spec(p), WHITE)
}

/// Recolors one pixel in place: white becomes transparent, everything
/// else takes the given foreground color.
pub fn set_white_pixels_transparent(pixel: &mut Pixel, color: u8)
    ensures
        *final(pixel) == recolor_pixel_spec(*old(pixel), color),
{
    if pixel.r == 255 && pixel.g == 255 && pixel.b == 255 {
        pixel.a = 0;
    } else {
        pixel.r = color;
        pixel.g = color;
        pixel.b = color;
    }
}

/// One recoloring pass: a new raster of the same dimensions where every
/// pixel of the (already adjusted) input has been recolored to `color`.
pub fn recolor_image(img: &Raster, color: u8) -> (out: Raster)
    requires
        img.wf(),
    ensures
        out.wf(),
        out.width == img.width,
        out.height == img.height,
        out.pixels@.len() == img.pixels@.len(),
        forall|i: int|
            0 <= i < img.pixels@.len() ==> out.pixels@[i] == recolor_pixel_spec(
                img.pixels@[i],
                color,
            ),
{
    let mut pixels: Vec<Pixel> = Vec::new();
    let n: usize = img.pixels.len();
    let mut i: usize = 0;
    while i < n
        invariant
            n == img.pixels@.len(),
            i <= n,
            pixels@.len() == i,
            forall|j: int|
                0 <= j < i ==> pixels@[j] == recolor_pixel_spec(img.pixels@[j], color),
        decreases n - i,
    {
        let mut p = img.pixels[i];
        set_white_pixels_transparent(&mut p, color);
        pixels.push(p);
        i = i + 1;
    }
    Raster { width: img.width, height: img.height, pixels }
}

/// The whole transform: adjust the image once, then recolor the adjusted
/// buffer twice from the same pixels, independently. The first raster is
/// the black (negative) variant, the second the white variant; both keep
/// the input's dimensions.
pub fn process_image(input_image: &Raster) -> (out: (Raster, Raster))
    requires
        input_image.wf(),
    ensures
        out.0.wf(),
        out.1.wf(),
        out.0.width == input_image.width,
        out.0.height == input_image.height,
        out.1.width == input_image.width,
        out.1.height == input_image.height,
        out.0.pixels@.len() == input_image.pixels@.len(),
        out.1.pixels@.len() == input_image.pixels@.len(),
        forall|i: int|
            0 <= i < input_image.pixels@.len() ==> out.0.pixels@[i] == black_variant_spec(
                input_image.pixels@[i],
            ),
        forall|i: int|
            0 <= i < input_image.pixels@.len() ==> out.1.pixels@[i] == white_variant_spec(
                input_image.pixels@[i],
            ),
{
    let adjusted_img = adjust_image(input_image);
    let black_img = recolor_image(&adjusted_img, BLACK);
    let white_img = recolor_image(&adjusted_img, WHITE);
    (black_img, white_img)
}

} // verus!
