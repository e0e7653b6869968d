//! Exposure and contrast pre-adjustment.
//!
//! Every color channel is first brightened by a fixed offset of +70,
//! saturating at 255, and then stretched around the channel midpoint 128
//! by the fixed contrast factor 25: the standard percentage curve
//! `((100 + 25) / 100)^2 = 25/16`, so a channel `v` becomes
//! `clamp((v - 128) * 25 / 16 + 128, 0, 255)` with floor rounding.
//! The alpha channel is not brightened but is contrast-stretched like the
//! color channels; 0 and 255 are fixed points of the stretch, so a fully
//! transparent or fully opaque pixel keeps its alpha.

use vstd::prelude::*;

use crate::raster::{Pixel, Raster};

verus! {

/// Fixed brightness offset added to each color channel.
pub const BRIGHTEN_OFFSET: u8 = 70;

/// An arbitrary integer clamped into the 8-bit channel range.
pub open spec fn clamp_channel(n: int) -> u8 {
    if n <= 0 {
        0u8
    } else if n >= 255 {
        255u8
    } else {
        n as u8
    }
}

/// Brightening: add the fixed offset, saturating at the channel maximum.
pub open spec fn brighten_spec(v: u8) -> u8 {
    clamp_channel(v + BRIGHTEN_OFFSET)
}

/// Contrast: stretch around the midpoint 128 by 25/16 (floor rounding),
/// then clamp. Division here is Euclidean, which on a divisor of 16 is
/// exactly the floor.
pub open spec fn contrast_spec(v: u8) -> u8 {
    clamp_channel((v - 128) * 25 / 16 + 128)
}

/// What the whole adjustment does to one color channel.
pub open spec fn adjust_color_spec(v: u8) -> u8 {
    contrast_spec(brighten_spec(v))
}

/// What the whole adjustment does to one pixel: both steps on the color
/// channels, only the contrast stretch on alpha.
pub open spec fn adjust_pixel_spec(p: Pixel) -> Pixel {
    Pixel {
        r: adjust_color_spec(p.r),
        g: adjust_color_spec(p.g),
        b: adjust_color_spec(p.b),
        a: contrast_spec(p.a),
    }
}

fn brighten_channel(v: u8) -> (r: u8)
    ensures
        r == brighten_spec(v),
{
    if v >= 255 - BRIGHTEN_OFFSET {
        255
    } else {
        v + BRIGHTEN_OFFSET
    }
}

fn contrast_channel(v: u8) -> (r: u8)
    ensures
        r == contrast_spec(v),
{
    // The midpoint term folded into one nonnegative division:
    // (v - 128) * 25 / 16 + 128 == (25 * v - 1152) / 16, and 1152 == 128 * (25 - 16).
    let scaled: u32 = 25 * (v as u32);
    if scaled <= 1152 {
        proof {
            assert(contrast_spec(v) == 0) by {
                vstd::arithmetic::div_mod::lemma_div_is_ordered((v - 128) * 25, -2048, 16);
            }
        }
        0
    } else {
        let q: u32 = (scaled - 1152) / 16;
        proof {
            assert((v - 128) * 25 / 16 + 128 == (25 * (v as int) - 1152) / 16) by {
                vstd::arithmetic::div_mod::lemma_hoist_over_denominator((v - 128) * 25, 128, 16);
            }
        }
        if q >= 255 {
            255
        } else {
            q as u8
        }
    }
}

/// One color channel through both adjustment steps.
pub fn adjust_color(v: u8) -> (r: u8)
    ensures
        r == adjust_color_spec(v),
{
    contrast_channel(brighten_channel(v))
}

/// One pixel through the adjustment; alpha skips the brightening step.
pub fn adjust_pixel(p: Pixel) -> (r: Pixel)
    ensures
        r == adjust_pixel_spec(p),
{
    Pixel {
        r: adjust_color(p.r),
        g: adjust_color(p.g),
        b: adjust_color(p.b),
        a: contrast_channel(p.a),
    }
}

/// The whole adjustment stage: a new raster of the same dimensions where
/// every pixel has been adjusted independently.
pub fn adjust_image(img: &Raster) -> (out: Raster)
    requires
        img.wf(),
    ensures
        out.wf(),
        out.width == img.width,
        out.height == img.height,
        out.pixels@.len() == img.pixels@.len(),
        forall|i: int|
            0 <= i < img.pixels@.len() ==> out.pixels@[i] == adjust_pixel_spec(img.pixels@[i]),
{
    let mut pixels: Vec<Pixel> = Vec::new();
    let n: usize = img.pixels.len();
    let mut i: usize = 0;
    while i < n
        invariant
            n == img.pixels@.len(),
            i <= n,
            pixels@.len() == i,
            forall|j: int| 0 <= j < i ==> pixels@[j] == adjust_pixel_spec(img.pixels@[j]),
        decreases n - i,
    {
        pixels.push(adjust_pixel(img.pixels[i]));
        i = i + 1;
    }
    Raster { width: img.width, height: img.height, pixels }
}

/// The adjustment is a monotonic stretch: a channel that starts no
/// brighter than another ends no brighter than it.
pub proof fn lemma_adjust_color_monotonic(v1: u8, v2: u8)
    requires
        v1 <= v2,
    ensures
        adjust_color_spec(v1) <= adjust_color_spec(v2),
{
    vstd::arithmetic::div_mod::lemma_div_is_ordered(
        (brighten_spec(v1) - 128) * 25,
        (brighten_spec(v2) - 128) * 25,
        16,
    );
}

} // verus!
