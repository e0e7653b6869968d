//! Properties of the transform, stated and proved once for all pixels.

use vstd::prelude::*;

use crate::adjust::{adjust_color_spec, adjust_pixel_spec, contrast_spec};
use crate::raster::Pixel;
use crate::recolor::{black_variant_spec, white_variant_spec};

verus! {

/// A pixel that adjusts to pure white comes out fully transparent in both
/// variants, whatever its alpha was; its color channels are left as the
/// adjusted values, not zeroed.
pub proof fn lemma_background_is_transparent(p: Pixel)
    requires
        adjust_pixel_spec(p).is_white(),
    ensures
        black_variant_spec(p).a == 0,
        white_variant_spec(p).a == 0,
        black_variant_spec(p) == white_variant_spec(p),
        black_variant_spec(p).is_white(),
{
}

/// A pixel that does not adjust to pure white takes the flat foreground
/// color on all three color channels — black in the negative variant,
/// white in the plain one — while both variants keep the adjusted alpha
/// untouched, even when it is 0.
pub proof fn lemma_foreground_takes_flat_color(p: Pixel)
    requires
        !adjust_pixel_spec(p).is_white(),
    ensures
        black_variant_spec(p).r == 0,
        black_variant_spec(p).g == 0,
        black_variant_spec(p).b == 0,
        white_variant_spec(p).r == 255,
        white_variant_spec(p).g == 255,
        white_variant_spec(p).b == 255,
        black_variant_spec(p).a == adjust_pixel_spec(p).a,
        white_variant_spec(p).a == adjust_pixel_spec(p).a,
{
}

/// The adjustment maps a full channel to a full channel and an empty one
/// to an empty one: 0 and 255 are fixed points of the contrast stretch,
/// and brightening saturates at 255.
pub proof fn lemma_adjust_keeps_channel_extremes()
    ensures
        adjust_color_spec(255) == 255,
        contrast_spec(255) == 255,
        contrast_spec(0) == 0,
{
}

/// Running the transform again on the black (negative) variant classifies
/// every pixel exactly as the first run did: a background pixel of the
/// output is still pure white after re-adjustment, and a black foreground
/// pixel re-adjusts to a dark gray, never to white. The transparency mask
/// of the negative variant is therefore stable under the transform.
pub proof fn lemma_black_variant_mask_is_stable(p: Pixel)
    ensures
        adjust_pixel_spec(black_variant_spec(p)).is_white() == adjust_pixel_spec(p).is_white(),
{
    assert(adjust_color_spec(255) == 255);
    assert(adjust_color_spec(0) == 37);
}

/// The transform is lossy the other way: every pixel of the white variant
/// — recolored foreground and kept-white background alike — is pure white,
/// so a second run classifies the whole image as background. The original
/// colors, and with them the mask of the white variant, cannot be
/// recovered.
pub proof fn lemma_white_variant_collapses_to_background(p: Pixel)
    ensures
        white_variant_spec(p).is_white(),
        adjust_pixel_spec(white_variant_spec(p)).is_white(),
{
    assert(adjust_color_spec(255) == 255);
}

} // verus!
