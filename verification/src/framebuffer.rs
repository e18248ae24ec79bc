//! The display: a grid of pixels that sprites are XOR-ed onto.

use fixedbitset::FixedBitSet;
use vstd::prelude::*;
use crate::bitset::bitset_bits;

verus! {

/// What a display shows: `width * height` pixels, row by row.
#[verifier::ext_equal]
pub struct Screen {
    pub width: int,
    pub height: int,
    pub pixels: Seq<bool>,
}

impl Screen {
    /// The grid has at least one pixel and `pixels` holds exactly the grid.
    pub open spec fn wf(self) -> bool {
        &&& 0 < self.width <= 255
        &&& 0 < self.height <= 255
        &&& self.pixels.len() == self.width * self.height
    }

    /// The place of pixel (`col`, `row`) in `pixels`.
    pub open spec fn offset(self, col: int, row: int) -> int {
        row * self.width + col
    }

    /// Whether pixel (`col`, `row`) is lit.
    pub open spec fn pixel(self, col: int, row: int) -> bool {
        self.pixels[self.offset(col, row)]
    }

    /// A dark screen of the given size.
    pub open spec fn blank(width: int, height: int) -> Screen {
        Screen { width, height, pixels: Seq::new((width * height) as nat, |i: int| false) }
    }

    /// This screen with pixel (`col`, `row`) set to `lit`.
    pub open spec fn with_pixel(self, col: int, row: int, lit: bool) -> Screen {
        Screen { pixels: self.pixels.update(self.offset(col, row), lit), ..self }
    }

    /// No pixel is lit.
    pub open spec fn is_dark(self) -> bool {
        forall|i: int| 0 <= i < self.pixels.len() ==> !self.pixels[i]
    }
}

/// A pixel inside the grid has its place inside `pixels`, and two different
/// pixels have different places.
pub proof fn lemma_offset(s: Screen, col: int, row: int)
    requires
        s.wf(),
        0 <= col < s.width,
        0 <= row < s.height,
    ensures
        0 <= row * s.width <= s.offset(col, row) < s.pixels.len() <= 255 * 255,
        s.offset(col, row) % s.width == col,
        s.offset(col, row) / s.width == row,
{
    let w = s.width;
    assert(row * w + col < s.height * w && 0 <= row * w) by (nonlinear_arith)
        requires
            0 <= col < w,
            0 <= row < s.height,
    ;
    assert(s.height * w == w * s.height && w * s.height <= 255 * 255) by (nonlinear_arith)
        requires
            0 < w <= 255,
            0 < s.height <= 255,
    ;
    vstd::arithmetic::div_mod::lemma_fundamental_div_mod_converse(row * w + col, w, row, col);
}

/// The display buffer: one bit per pixel, row by row.
pub struct Framebuffer {
    bits: FixedBitSet,
    width: u8,
    height: u8,
}

impl View for Framebuffer {
    type V = Screen;

    closed spec fn view(&self) -> Screen {
        Screen {
            width: self.width as int,
            height: self.height as int,
            pixels: bitset_bits(self.bits),
        }
    }
}

impl Framebuffer {
    /// The buffer holds exactly its grid.
    pub open spec fn wf(&self) -> bool {
        self@.wf()
    }

    /// A dark buffer of `width` by `height` pixels.
    pub fn new(width: u8, height: u8) -> (fb: Framebuffer)
        requires
            width > 0,
            height > 0,
        ensures
            fb.wf(),
            fb@ == Screen::blank(width as int, height as int),
    {
        assert(0 <= height as int * width as int <= 255 * 255 && height as int * width as int
            == width as int * height as int) by (nonlinear_arith)
            requires
                0 <= width as int <= 255,
                0 <= height as int <= 255,
        ;
        let bits = FixedBitSet::with_capacity(height as usize * width as usize);
        Framebuffer { bits, width, height }
    }

    /// The number of columns.
    pub fn width(&self) -> (w: u8)
        ensures
            w == self@.width,
    {
        self.width
    }

    /// The number of rows.
    pub fn height(&self) -> (h: u8)
        ensures
            h == self@.height,
    {
        self.height
    }

    /// Darkens every pixel; the size stays.
    pub fn clear(&mut self)
        requires
            old(self).wf(),
        ensures
            final(self).wf(),
            final(self)@ == Screen::blank(old(self)@.width, old(self)@.height),
    {
        self.bits.clear();
    }

    /// Whether pixel (`x`, `y`) is lit.
    pub fn pixel(&self, x: usize, y: usize) -> (lit: bool)
        requires
            self.wf(),
            x < self@.width,
            y < self@.height,
        ensures
            lit == self@.pixel(x as int, y as int),
    {
        proof {
            lemma_offset(self@, x as int, y as int);
        }
        let idx = y * self.width as usize + x;
        self.bits.contains(idx)
    }

    /// XORs `value == 1` onto pixel (`x`, `y`) and reports whether the pixel
    /// was lit before.
    pub fn draw_pixel(&mut self, x: usize, y: usize, value: u8) -> (collision: bool)
        requires
            old(self).wf(),
            x < old(self)@.width,
            y < old(self)@.height,
        ensures
            final(self).wf(),
            collision == old(self)@.pixel(x as int, y as int),
            final(self)@ == old(self)@.with_pixel(x as int, y as int, (value == 1) ^ collision),
    {
        proof {
            lemma_offset(self@, x as int, y as int);
        }
        let idx = y * self.width as usize + x;
        let collision = self.bits.contains(idx);
        self.bits.set(idx, (value == 1) ^ collision);
        collision
    }

    /// A copy of the pixels, row by row.
    pub fn snapshot(&self) -> (pixels: Vec<bool>)
        requires
            self.wf(),
        ensures
            pixels@ == self@.pixels,
    {
        let len = self.bits.len();
        let mut pixels: Vec<bool> = Vec::new();
        let mut i: usize = 0;
        while i < len
            invariant
                i <= len,
                len == bitset_bits(self.bits).len(),
                pixels@ == bitset_bits(self.bits).subrange(0, i as int),
            decreases len - i,
        {
            pixels.push(self.bits.contains(i));
            i += 1;
        }
        pixels
    }
}

} // verus!
