//! Turns a raster image into two flat-color stencil thumbnails: every pure
//! white pixel of the adjusted image becomes fully transparent, and every
//! other pixel is recolored to a single foreground color, black in one
//! variant and white in the other.

pub mod adjust;
pub mod laws;
pub mod raster;
pub mod recolor;
