//! The off-screen monochrome pixel buffer: a row-major grid of booleans,
//! `true` meaning the pixel is lit.  Every draw operation of the renderer
//! mutates this buffer only; nothing becomes visible until the packed frame
//! is transferred to the device.

use vstd::prelude::*;

verus! {

/// Mathematical content of a framebuffer: its dimensions and one boolean per
/// pixel, row-major (index `y * width + x`).
#[verifier::ext_equal]
pub ghost struct FrameView {
    pub width: nat,
    pub height: nat,
    pub pixels: Seq<bool>,
}

impl FrameView {
    /// The pixel grid fills the stated dimensions exactly.
    pub open spec fn wf(self) -> bool {
        &&& 0 < self.width
        &&& 0 < self.height
        &&& self.width * self.height <= usize::MAX
        &&& self.pixels.len() == self.width * self.height
    }

    /// The pixel in column `x` of row `y`.
    pub open spec fn pixel(self, x: int, y: int) -> bool {
        self.pixels[y * self.width + x]
    }

    /// `x, y` addresses a pixel of the grid.
    pub open spec fn in_bounds(self, x: int, y: int) -> bool {
        0 <= x < self.width && 0 <= y < self.height
    }
}

/// An in-memory pixel buffer of fixed dimensions.
pub struct FrameBuffer {
    width: usize,
    height: usize,
    pixels: Vec<bool>,
}

impl View for FrameBuffer {
    type V = FrameView;

    closed spec fn view(&self) -> FrameView {
        FrameView {
            width: self.width as nat,
            height: self.height as nat,
            pixels: self.pixels@,
        }
    }
}

/// A row-major index stays inside the grid.
proof fn lemma_index_in_grid(x: int, y: int, w: int, h: int)
    requires
        0 <= x < w,
        0 <= y < h,
    ensures
        0 <= y * w + x < w * h,
{
    assert(0 <= y * w + x < w * h) by (nonlinear_arith)
        requires
            0 <= x < w,
            0 <= y < h,
    ;
}

impl FrameBuffer {
    /// A buffer with every pixel off.
    pub fn new(width: usize, height: usize) -> (r: FrameBuffer)
        requires
            0 < width,
            0 < height,
            width * height <= usize::MAX,
        ensures
            r@.wf(),
            r@.width == width,
            r@.height == height,
            forall|i: int| 0 <= i < r@.pixels.len() ==> !r@.pixels[i],
    {
        let n: usize = width * height;
        let mut pixels: Vec<bool> = Vec::new();
        let mut i: usize = 0;
        while i < n
            invariant
                i <= n,
                pixels@.len() == i,
                forall|j: int| 0 <= j < i ==> !pixels@[j],
            decreases n - i,
        {
            pixels.push(false);
            i = i + 1;
        }
        FrameBuffer { width, height, pixels }
    }

    /// The buffer's width in pixels.
    pub fn width(&self) -> (w: usize)
        ensures
            w == self@.width,
    {
        self.width
    }

    /// The buffer's height in pixels.
    pub fn height(&self) -> (h: usize)
        ensures
            h == self@.height,
    {
        self.height
    }

    /// Reads one pixel.
    pub fn get_pixel(&self, x: usize, y: usize) -> (on: bool)
        requires
            self@.wf(),
            self@.in_bounds(x as int, y as int),
        ensures
            on == self@.pixel(x as int, y as int),
    {
        proof {
            lemma_index_in_grid(x as int, y as int, self@.width as int, self@.height as int);
        }
        self.pixels[y * self.width + x]
    }

    /// Writes one pixel, leaving every other pixel and the dimensions alone.
    pub fn set_pixel(&mut self, x: usize, y: usize, on: bool)
        requires
            old(self)@.wf(),
            old(self)@.in_bounds(x as int, y as int),
        ensures
            final(self)@.wf(),
            final(self)@.width == old(self)@.width,
            final(self)@.height == old(self)@.height,
            final(self)@.pixel(x as int, y as int) == on,
            forall|i: int, j: int|
                old(self)@.in_bounds(i, j) && !(i == x && j == y) ==> final(self)@.pixel(i, j)
                    == old(self)@.pixel(i, j),
            final(self)@.pixels == old(self)@.pixels.update(
                y as int * old(self)@.width as int + x as int,
                on,
            ),
    {
        proof {
            lemma_index_in_grid(x as int, y as int, self@.width as int, self@.height as int);
        }
        let idx: usize = y * self.width + x;
        self.pixels.set(idx, on);
        proof {
            let w = self@.width as int;
            assert forall|i: int, j: int|
                old(self)@.in_bounds(i, j) && !(i == x && j == y) implies self@.pixel(i, j)
                == old(self)@.pixel(i, j) by {
                lemma_index_in_grid(i, j, w, self@.height as int);
                if j * w + i == (y as int) * w + (x as int) {
                    vstd::arithmetic::div_mod::lemma_fundamental_div_mod_converse(
                        j * w + i,
                        w,
                        j,
                        i,
                    );
                    vstd::arithmetic::div_mod::lemma_fundamental_div_mod_converse(
                        j * w + i,
                        w,
                        y as int,
                        x as int,
                    );
                }
            }
        }
    }
}

} // verus!
