//! Verified core of a small environmental-display device: a sensor reading is
//! formatted as one line of text and rendered into a monochrome framebuffer,
//! which is then packed into the byte layout that the display controller
//! expects.  All buffer manipulation (clearing, the border, merging rasterised
//! text, packing pages) is verified; the hardware buses and the glyph
//! rasteriser are outside collaborators reached through narrow trusted
//! wrappers.

pub mod driver;
pub mod framebuffer;
pub mod raster;
pub mod reading;
pub mod renderer;
pub mod textfmt;
