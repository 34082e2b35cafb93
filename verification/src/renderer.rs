//! The display renderer: an off-screen framebuffer and the ordered refresh
//! protocol over it — clear (which re-draws the border at once), draw the
//! message line, then pack the frame for the bus transfer.  Every step is a
//! pure buffer computation here; the bus itself is driven by the caller with
//! the packed bytes this module hands out.

use vstd::prelude::*;
use crate::framebuffer::FrameBuffer;
use crate::framebuffer::FrameView;
use crate::raster::RASTER_HEIGHT;
use crate::raster::RASTER_ROW_BYTES;
use crate::raster::RASTER_WIDTH;
use crate::raster::raster_pixel;
use crate::raster::rasterize_line;
use crate::reading::InitError;

verus! {

/// How the display controller is mounted; a quarter-turn swaps the axes of
/// the drawable area.
#[derive(Clone, Copy, PartialEq, Eq, Structural, Debug)]
pub enum Rotation {
    /// Mounted upright.
    Rotate0,
    /// Turned a quarter clockwise.
    Rotate90,
    /// Upside down.
    Rotate180,
    /// Turned a quarter anticlockwise.
    Rotate270,
}

impl Rotation {
    /// A quarter turn exchanges the width and height of the drawable area.
    pub open spec fn swaps_axes(self) -> bool {
        self is Rotate90 || self is Rotate270
    }
}

/// Whether `(x, y)` lies on the one-pixel border just inside the edges of a
/// `w` by `h` grid.
pub open spec fn on_border(w: int, h: int, x: int, y: int) -> bool {
    x == 0 || y == 0 || x == w - 1 || y == h - 1
}

/// The buffer contents after a clear: the border lit, every other pixel off.
pub open spec fn cleared_frame(v: FrameView) -> FrameView {
    FrameView {
        width: v.width,
        height: v.height,
        pixels: Seq::new(
            v.width * v.height,
            |i: int|
                on_border(
                    v.width as int,
                    v.height as int,
                    i % (v.width as int),
                    i / (v.width as int),
                ),
        ),
    }
}

/// The value of packed byte `i` of a frame: eight vertically stacked pixels
/// of column `i % width` within page `i / width`, the topmost pixel in the
/// least significant bit — the byte layout the display controller's data RAM
/// expects for a bus transfer.
pub open spec fn packed_byte(v: FrameView, i: int) -> u8 {
    let x = i % (v.width as int);
    let page = i / (v.width as int);
    ((if v.pixel(x, 8 * page) {
        1int
    } else {
        0int
    }) + (if v.pixel(x, 8 * page + 1) {
        2int
    } else {
        0int
    }) + (if v.pixel(x, 8 * page + 2) {
        4int
    } else {
        0int
    }) + (if v.pixel(x, 8 * page + 3) {
        8int
    } else {
        0int
    }) + (if v.pixel(x, 8 * page + 4) {
        16int
    } else {
        0int
    }) + (if v.pixel(x, 8 * page + 5) {
        32int
    } else {
        0int
    }) + (if v.pixel(x, 8 * page + 6) {
        64int
    } else {
        0int
    }) + (if v.pixel(x, 8 * page + 7) {
        128int
    } else {
        0int
    })) as u8
}

/// The whole packed frame: `height / 8` pages of `width` bytes each, pages
/// top to bottom, columns left to right within a page.
pub open spec fn packed_frame(v: FrameView) -> Seq<u8> {
    Seq::new(v.width * ((v.height / 8) as nat), |i: int| packed_byte(v, i))
}

/// Border persistence: whatever the buffer held before, after a clear the
/// lit pixels stand at exactly the rectangle perimeter — every border
/// coordinate is on, every interior coordinate is off — and stay so until
/// something further is drawn.
pub proof fn lemma_border_after_clear(v: FrameView)
    requires
        v.wf(),
    ensures
        cleared_frame(v).wf(),
        cleared_frame(v).width == v.width,
        cleared_frame(v).height == v.height,
        forall|x: int, y: int|
            v.in_bounds(x, y) ==> #[trigger] cleared_frame(v).pixel(x, y) == on_border(
                v.width as int,
                v.height as int,
                x,
                y,
            ),
{
    let w = v.width as int;
    let h = v.height as int;
    assert forall|x: int, y: int| v.in_bounds(x, y) implies #[trigger] cleared_frame(v).pixel(x, y)
        == on_border(w, h, x, y) by {
        assert(0 <= y * w + x < w * h) by (nonlinear_arith)
            requires
                0 <= x < w,
                0 <= y < h,
        ;
        vstd::arithmetic::div_mod::lemma_fundamental_div_mod_converse(y * w + x, w, y, x);
    }
}

/// Idempotent clear: clearing an already-cleared buffer produces the very
/// same buffer state — border present, no text — as the first clear did.
pub proof fn lemma_clear_idempotent(v: FrameView)
    requires
        v.wf(),
    ensures
        cleared_frame(cleared_frame(v)) == cleared_frame(v),
{
    assert(cleared_frame(cleared_frame(v)).pixels =~= cleared_frame(v).pixels);
    assert(cleared_frame(cleared_frame(v)) =~= cleared_frame(v));
}

/// A framebuffer-backed renderer for a monochrome display.
///
/// The two style descriptors of the device — a one-pixel border stroke and
/// the fixed-width bitmap font of the message line — are immutable for the
/// renderer's whole life and are baked into `draw_border` and the glyph
/// raster respectively.
pub struct DisplayRenderer {
    fb: FrameBuffer,
}

impl View for DisplayRenderer {
    type V = FrameView;

    closed spec fn view(&self) -> FrameView {
        self.fb@
    }
}

impl DisplayRenderer {
    /// Establishes the renderer over an already-acknowledged controller.
    ///
    /// The controller sits behind the bus, so the caller performs the
    /// initialisation commands and passes whether the controller
    /// acknowledged them; on a refusal nothing can ever be rendered and
    /// `InitError` is returned.  On success the off-screen buffer starts
    /// with every pixel off, sized to the drawable area (a quarter-turn
    /// rotation swaps the axes).
    pub fn initialize(width: usize, height: usize, rotation: Rotation, init_ack: bool) -> (r:
        Result<DisplayRenderer, InitError>)
        requires
            0 < width,
            0 < height,
            width * height <= usize::MAX,
        ensures
            r is Ok <==> init_ack,
            r is Ok ==> {
                let v = r->Ok_0@;
                &&& v.wf()
                &&& v.width == if rotation.swaps_axes() { height as nat } else { width as nat }
                &&& v.height == if rotation.swaps_axes() { width as nat } else { height as nat }
                &&& forall|i: int| 0 <= i < v.pixels.len() ==> !v.pixels[i]
            },
    {
        if !init_ack {
            return Err(InitError);
        }
        let swap: bool = match rotation {
            Rotation::Rotate90 => true,
            Rotation::Rotate270 => true,
            _ => false,
        };
        let w: usize = if swap { height } else { width };
        let h: usize = if swap { width } else { height };
        proof {
            assert(w * h <= usize::MAX) by (nonlinear_arith)
                requires
                    width * height <= usize::MAX,
                    (w == width && h == height) || (w == height && h == width),
            ;
        }
        Ok(DisplayRenderer { fb: FrameBuffer::new(w, h) })
    }

    /// The drawable width in pixels.
    pub fn width(&self) -> (w: usize)
        ensures
            w == self@.width,
    {
        self.fb.width()
    }

    /// The drawable height in pixels.
    pub fn height(&self) -> (h: usize)
        ensures
            h == self@.height,
    {
        self.fb.height()
    }

    /// Reads one pixel of the off-screen buffer.
    pub fn pixel(&self, x: usize, y: usize) -> (on: bool)
        requires
            self@.wf(),
            self@.in_bounds(x as int, y as int),
        ensures
            on == self@.pixel(x as int, y as int),
    {
        self.fb.get_pixel(x, y)
    }

    /// Paints the one-pixel border rectangle into the buffer, leaving every
    /// interior pixel as it was.  Buffer only; no bus traffic.
    pub fn draw_border(&mut self)
        requires
            old(self)@.wf(),
        ensures
            final(self)@.wf(),
            final(self)@.width == old(self)@.width,
            final(self)@.height == old(self)@.height,
            forall|x: int, y: int|
                old(self)@.in_bounds(x, y) ==> final(self)@.pixel(x, y) == (old(self)@.pixel(x, y)
                    || on_border(old(self)@.width as int, old(self)@.height as int, x, y)),
    {
        let w: usize = self.fb.width();
        let h: usize = self.fb.height();
        let ghost v0 = self@;
        let mut y: usize = 0;
        while y < h
            invariant
                self@.wf(),
                self@.width == v0.width,
                self@.height == v0.height,
                w == v0.width,
                h == v0.height,
                y <= h,
                forall|i: int, j: int|
                    v0.in_bounds(i, j) && j < y ==> #[trigger] self@.pixel(i, j) == (v0.pixel(i, j)
                        || on_border(v0.width as int, v0.height as int, i, j)),
                forall|i: int, j: int|
                    v0.in_bounds(i, j) && j >= y ==> #[trigger] self@.pixel(i, j) == v0.pixel(i, j),
            decreases h - y,
        {
            let mut x: usize = 0;
            while x < w
                invariant
                    self@.wf(),
                    self@.width == v0.width,
                    self@.height == v0.height,
                    w == v0.width,
                    h == v0.height,
                    y < h,
                    x <= w,
                    forall|i: int, j: int|
                        v0.in_bounds(i, j) && j < y ==> self@.pixel(i, j) == (v0.pixel(i, j)
                            || on_border(v0.width as int, v0.height as int, i, j)),
                    forall|i: int|
                        0 <= i < x ==> #[trigger] self@.pixel(i, y as int) == (v0.pixel(i, y as int)
                            || on_border(v0.width as int, v0.height as int, i, y as int)),
                    forall|i: int, j: int|
                        v0.in_bounds(i, j) && (j > y || (j == y && i >= x)) ==> #[trigger] self@.pixel(i, j)
                            == v0.pixel(i, j),
                decreases w - x,
            {
                if x == 0 || y == 0 || x == w - 1 || y == h - 1 {
                    self.fb.set_pixel(x, y, true);
                }
                x = x + 1;
            }
            y = y + 1;
        }
    }

    /// Resets every pixel to off and at once re-draws the border, so the
    /// buffer never holds a cleared-but-borderless frame in between.
    /// Buffer only; no bus traffic.
    pub fn clear(&mut self)
        requires
            old(self)@.wf(),
        ensures
            final(self)@.wf(),
            final(self)@ == cleared_frame(old(self)@),
    {
        let w: usize = self.fb.width();
        let h: usize = self.fb.height();
        self.fb = FrameBuffer::new(w, h);
        self.draw_border();
        proof {
            let wi = w as int;
            let hi = h as int;
            let vc = cleared_frame(old(self)@);
            assert forall|i: int| 0 <= i < self@.pixels.len() implies self@.pixels[i]
                == vc.pixels[i] by {
                vstd::arithmetic::div_mod::lemma_fundamental_div_mod(i, wi);
                vstd::arithmetic::div_mod::lemma_multiply_divide_lt(i, wi, hi);
                vstd::arithmetic::div_mod::lemma_mod_bound(i, wi);
                assert(self@.in_bounds(i % wi, i / wi));
                assert(self@.pixel(i % wi, i / wi) == self@.pixels[(i / wi) * wi + (i % wi)]);
                assert(self@.pixel(i % wi, i / wi) == on_border(wi, hi, i % wi, i / wi));
            }
            assert(self@.pixels =~= vc.pixels);
            assert(self@ =~= vc);
        }
    }

    /// Renders `text` as one line of monospaced glyphs anchored at the fixed
    /// top-left text offset, merging the lit glyph pixels into the buffer;
    /// text wider than the raster frame is clipped, not corrected.  Buffer
    /// only; no bus traffic.
    pub fn draw_message(&mut self, text: &str)
        requires
            old(self)@.wf(),
        ensures
            final(self)@.wf(),
            final(self)@.width == old(self)@.width,
            final(self)@.height == old(self)@.height,
            forall|x: int, y: int|
                old(self)@.in_bounds(x, y) ==> #[trigger] final(self)@.pixel(x, y) == (old(
                    self,
                )@.pixel(x, y) || (x < RASTER_WIDTH && y < RASTER_HEIGHT && raster_pixel(
                    text@,
                    x,
                    y,
                ))),
    {
        let raster = rasterize_line(text);
        let w: usize = self.fb.width();
        let h: usize = self.fb.height();
        let xmax: usize = if w < RASTER_WIDTH {
            w
        } else {
            RASTER_WIDTH
        };
        let ymax: usize = if h < RASTER_HEIGHT {
            h
        } else {
            RASTER_HEIGHT
        };
        let ghost v0 = self@;
        let mut y: usize = 0;
        while y < ymax
            invariant
                self@.wf(),
                self@.width == v0.width,
                self@.height == v0.height,
                w == v0.width,
                h == v0.height,
                xmax == if w < RASTER_WIDTH { w as int } else { RASTER_WIDTH as int },
                ymax == if h < RASTER_HEIGHT { h as int } else { RASTER_HEIGHT as int },
                raster@ == crate::raster::text_frame_bytes(text@),
                raster@.len() == crate::raster::RASTER_BYTES,
                y <= ymax,
                forall|i: int, j: int|
                    v0.in_bounds(i, j) && j < y ==> #[trigger] self@.pixel(i, j) == (v0.pixel(i, j)
                        || (i < RASTER_WIDTH && j < RASTER_HEIGHT && raster_pixel(text@, i, j))),
                forall|i: int, j: int|
                    v0.in_bounds(i, j) && j >= y ==> #[trigger] self@.pixel(i, j) == v0.pixel(i, j),
            decreases ymax - y,
        {
            let mut x: usize = 0;
            while x < xmax
                invariant
                    self@.wf(),
                    self@.width == v0.width,
                    self@.height == v0.height,
                    w == v0.width,
                    h == v0.height,
                    xmax == if w < RASTER_WIDTH { w as int } else { RASTER_WIDTH as int },
                    ymax == if h < RASTER_HEIGHT { h as int } else { RASTER_HEIGHT as int },
                    raster@ == crate::raster::text_frame_bytes(text@),
                    raster@.len() == crate::raster::RASTER_BYTES,
                    y < ymax,
                    x <= xmax,
                    forall|i: int, j: int|
                        v0.in_bounds(i, j) && j < y ==> #[trigger] self@.pixel(i, j) == (v0.pixel(
                            i,
                            j,
                        ) || (i < RASTER_WIDTH && j < RASTER_HEIGHT && raster_pixel(text@, i, j))),
                    forall|i: int|
                        0 <= i < x ==> #[trigger] self@.pixel(i, y as int) == (v0.pixel(i, y as int)
                            || (i < RASTER_WIDTH && raster_pixel(text@, i, y as int))),
                    forall|i: int, j: int|
                        v0.in_bounds(i, j) && (j > y || (j == y && i >= x)) ==> #[trigger] self@.pixel(
                            i,
                            j,
                        ) == v0.pixel(i, j),
                decreases xmax - x,
            {
                let idx: usize = y * RASTER_ROW_BYTES + x / 8;
                let byte: u8 = raster[idx];
                let bit_on: bool = ((byte >> ((7 - (x % 8)) as u8)) & 1) == 1;
                proof {
                    assert(bit_on == raster_pixel(text@, x as int, y as int));
                }
                if bit_on {
                    self.fb.set_pixel(x, y, true);
                }
                x = x + 1;
            }
            y = y + 1;
        }
    }

    /// Packs the buffer into the byte sequence a bus transfer sends to the
    /// display controller: pages of eight pixel rows, one byte per column.
    pub fn frame_bytes(&self) -> (r: Vec<u8>)
        requires
            self@.wf(),
            self@.height % 8 == 0,
        ensures
            r@ == packed_frame(self@),
            r@.len() == self@.width * ((self@.height / 8) as nat),
    {
        let w: usize = self.fb.width();
        let h: usize = self.fb.height();
        let pages: usize = h / 8;
        proof {
            vstd::arithmetic::div_mod::lemma_fundamental_div_mod(h as int, 8);
            assert(pages * w <= h * w) by (nonlinear_arith)
                requires
                    0 <= w,
                    0 <= pages <= h,
            ;
            assert(h * w <= usize::MAX) by (nonlinear_arith)
                requires
                    w * h <= usize::MAX,
            ;
        }
        let n: usize = pages * w;
        let mut out: Vec<u8> = Vec::new();
        let mut i: usize = 0;
        while i < n
            invariant
                self@.wf(),
                w == self@.width,
                h == self@.height,
                h == 8 * pages,
                n == pages * w,
                n == packed_frame(self@).len(),
                i <= n,
                out@.len() == i,
                forall|j: int| 0 <= j < i ==> out@[j] == #[trigger] packed_frame(self@)[j],
            decreases n - i,
        {
            let x: usize = i % w;
            let page: usize = i / w;
            proof {
                vstd::arithmetic::div_mod::lemma_mod_bound(i as int, w as int);
                vstd::arithmetic::div_mod::lemma_multiply_divide_lt(i as int, w as int, pages as int);
                vstd::arithmetic::div_mod::lemma_fundamental_div_mod(i as int, w as int);
            }
            let y0: usize = 8 * page;
            let mut b: u8 = 0;
            if self.fb.get_pixel(x, y0) {
                b = b + 1;
            }
            if self.fb.get_pixel(x, y0 + 1) {
                b = b + 2;
            }
            if self.fb.get_pixel(x, y0 + 2) {
                b = b + 4;
            }
            if self.fb.get_pixel(x, y0 + 3) {
                b = b + 8;
            }
            if self.fb.get_pixel(x, y0 + 4) {
                b = b + 16;
            }
            if self.fb.get_pixel(x, y0 + 5) {
                b = b + 32;
            }
            if self.fb.get_pixel(x, y0 + 6) {
                b = b + 64;
            }
            if self.fb.get_pixel(x, y0 + 7) {
                b = b + 128;
            }
            proof {
                assert(b == packed_byte(self@, i as int));
            }
            out.push(b);
            i = i + 1;
        }
        proof {
            assert(out@ =~= packed_frame(self@));
        }
        out
    }
}

} // verus!
