//! The glyph rasteriser.  Turning a line of text into lit pixels is the job
//! of the outside graphics library and its fixed-width bitmap font; the
//! result is a pure function of the text, so it is given a name here and the
//! rest of the renderer is verified against that name.

use vstd::prelude::*;
use embedded_graphics::Drawable;
use embedded_graphics::framebuffer::Framebuffer;
use embedded_graphics::geometry::Point;
use embedded_graphics::mono_font::MonoTextStyle;
use embedded_graphics::mono_font::ascii::FONT_6X10;
use embedded_graphics::pixelcolor::BinaryColor;
use embedded_graphics::pixelcolor::raw::LittleEndian;
use embedded_graphics::pixelcolor::raw::RawU1;
use embedded_graphics::text::Baseline;
use embedded_graphics::text::Text;

verus! {

/// Width in pixels of the raster frame the glyph renderer draws into.
pub const RASTER_WIDTH: usize = 128;

/// Height in pixels of the raster frame.
pub const RASTER_HEIGHT: usize = 64;

/// Bytes per raster row: one bit per pixel.
pub const RASTER_ROW_BYTES: usize = 16;

/// Bytes in the whole raster frame.
pub const RASTER_BYTES: usize = 1024;

/// The raster frame that the outside glyph renderer produces for one line of
/// text: a 128 by 64 one-bit image, row-major, eight pixels per byte with the
/// leftmost pixel in the most significant bit.  The glyphs stand at the fixed
/// text anchor (column 2, row 16); what exact shape each glyph has is the
/// font's business and is left unstated.
pub uninterp spec fn text_frame_bytes(text: Seq<char>) -> Seq<u8>;

/// Whether the raster frame for `text` has the pixel at column `x` of row
/// `y` lit.
pub open spec fn raster_pixel(text: Seq<char>, x: int, y: int) -> bool {
    ((text_frame_bytes(text)[y * 16 + x / 8] >> ((7 - (x % 8)) as u8)) & 1u8) == 1u8
}

/// Relies on embedded_graphics: drawing `Text::with_baseline(text, (2, 16),
/// FONT_6X10, Baseline::Top)` into a 128x64 one-bit `Framebuffer` depends on
/// the text alone, and the framebuffer holds one bit per pixel, row-major,
/// sixteen bytes per row, most significant bit leftmost.  Drawing into a
/// `Framebuffer` cannot fail (its error type is `Infallible`).
#[verifier::external_body]
pub(crate) fn rasterize_line(text: &str) -> (r: Vec<u8>)
    ensures
        r@ == text_frame_bytes(text@),
        r@.len() == RASTER_BYTES,
{
    let style = MonoTextStyle::new(&FONT_6X10, BinaryColor::On);
    let mut frame = Framebuffer::<BinaryColor, RawU1, LittleEndian, 128, 64, 1024>::new();
    let _ = Text::with_baseline(text, Point::new(2, 16), style, Baseline::Top).draw(&mut frame);
    frame.data().to_vec()
}

} // verus!
