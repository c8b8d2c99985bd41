//! A decoded image in memory: rows of RGBA pixels, top row first.

use vstd::prelude::*;

verus! {

/// The number of bytes of one pixel.
pub const BYTES_PER_PIXEL: usize = 4;

/// The number of bytes that an image of the given size takes.
pub open spec fn byte_len(width: u32, height: u32) -> int {
    4 * (width as int) * (height as int)
}

/// The mathematical value of a [`Raster`].
pub struct RasterModel {
    pub width: u32,
    pub height: u32,
    pub pixels: Seq<u8>,
}

/// An RGBA image. It always holds exactly four bytes for each of its pixels.
#[derive(Debug, PartialEq, Eq)]
pub struct Raster {
    width: u32,
    height: u32,
    pixels: Vec<u8>,
}

impl View for Raster {
    type V = RasterModel;

    closed spec fn view(&self) -> RasterModel {
        RasterModel { width: self.width, height: self.height, pixels: self.pixels@ }
    }
}

proof fn lemma_rows_fit(width: int, height: int, y: int)
    requires
        0 <= width,
        0 <= y < height,
    ensures
        0 <= 4 * width * y,
        4 * width * y + 4 * width <= 4 * width * height,
{
    assert(width * y + width == width * (y + 1)) by (nonlinear_arith);
    assert(width * (y + 1) <= width * height) by (nonlinear_arith)
        requires
            0 <= width,
            y + 1 <= height,
    ;
    assert(0 <= width * y) by (nonlinear_arith)
        requires
            0 <= width,
            0 <= y,
    ;
    assert(4 * width * y == 4 * (width * y)) by (nonlinear_arith);
    assert(4 * width * height == 4 * (width * height)) by (nonlinear_arith);
}

impl Raster {
    #[verifier::type_invariant]
    spec fn holds_every_pixel(self) -> bool {
        self.pixels@.len() == byte_len(self.width, self.height)
    }

    /// Makes a raster of the given size from its bytes, if there are exactly
    /// four of them for each pixel.
    pub fn from_parts(width: u32, height: u32, pixels: Vec<u8>) -> (raster: Option<Raster>)
        ensures
            raster.is_some() <==> pixels@.len() == byte_len(width, height),
            raster matches Some(r) ==> r@ == (RasterModel { width, height, pixels: pixels@ }),
    {
        assert(0 <= (width as int) * (height as int) <= 0xffff_ffff * 0xffff_ffff)
            by (nonlinear_arith)
            requires
                0 <= width <= 0xffff_ffff,
                0 <= height <= 0xffff_ffff,
        ;
        let area: u64 = (width as u64) * (height as u64);
        assert(byte_len(width, height) == 4 * ((width as int) * (height as int)))
            by (nonlinear_arith);
        let len: u64 = pixels.len() as u64;
        if len % 4 == 0 && len / 4 == area {
            Some(Raster { width, height, pixels })
        } else {
            None
        }
    }

    /// Width in pixels.
    pub fn width(&self) -> (w: u32)
        ensures
            w == self@.width,
    {
        self.width
    }

    /// Height in pixels.
    pub fn height(&self) -> (h: u32)
        ensures
            h == self@.height,
    {
        self.height
    }

    /// All bytes, row after row: four for each pixel.
    pub fn pixels(&self) -> (bytes: &Vec<u8>)
        ensures
            bytes@ == self@.pixels,
            bytes@.len() == byte_len(self@.width, self@.height),
    {
        proof {
            use_type_invariant(self);
        }
        &self.pixels
    }

    /// Where row `y` starts among the bytes. The whole row lies within them.
    pub fn row_start(&self, y: u32) -> (start: usize)
        requires
            y < self@.height,
        ensures
            start == 4 * self@.width * y,
            start + 4 * self@.width <= self@.pixels.len(),
    {
        let total: usize = self.pixels.len();
        proof {
            use_type_invariant(self);
            let w = self.width as int;
            lemma_rows_fit(w, self.height as int, y as int);
            assert(total == 4 * w * (self.height as int));
            assert(w * 4 == 4 * w);
            assert(0 <= 4 * w <= total);
            assert((w * 4) * (y as int) == 4 * w * (y as int)) by (nonlinear_arith);
        }
        let row: usize = (self.width as usize) * BYTES_PER_PIXEL;
        row * (y as usize)
    }
}

} // verus!
