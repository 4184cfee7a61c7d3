use vstd::prelude::*;

verus! {

/// A decoded bitmap image: an 8-bit RGB pixel grid held as a flat,
/// row-major buffer of `3 * width * height` channel bytes.
pub struct Raster {
    pub width: u32,
    pub height: u32,
    pub pixels: Vec<u8>,
}

/// The channel byte of a flat row-major RGB buffer of the given row width,
/// at column `x`, row `y`, channel `c` (0 = R, 1 = G, 2 = B).
pub open spec fn channel_of(pixels: Seq<u8>, width: int, x: int, y: int, c: int) -> u8 {
    pixels[3 * (y * width + x) + c]
}

/// The product of two 32-bit dimensions fits well below `u128` range.
proof fn lemma_dims_product_fits(w: int, h: int)
    by (nonlinear_arith)
    requires
        0 <= w < 0x1_0000_0000,
        0 <= h < 0x1_0000_0000,
    ensures
        0 <= w * h < 0x1_0000_0000_0000_0000,
        3 * (w * h) == 3 * w * h,
{
}

/// The flat index of a channel byte stays inside a well-formed buffer.
pub proof fn lemma_channel_index_in_bounds(w: int, h: int, x: int, y: int, c: int)
    by (nonlinear_arith)
    requires
        0 <= x < w,
        0 <= y < h,
        0 <= c < 3,
    ensures
        0 <= y * w + x < w * h,
        0 <= 3 * (y * w + x) + c < 3 * w * h,
{
}

impl Raster {
    /// A raster is well formed when both dimensions are positive and the
    /// buffer holds exactly three bytes per pixel.
    pub open spec fn wf(self) -> bool {
        0 < self.width && 0 < self.height
            && self.pixels@.len() == 3 * (self.width as int) * (self.height as int)
    }

    /// The channel value at column `x`, row `y`, channel `c`.
    pub open spec fn channel(self, x: int, y: int, c: int) -> u8 {
        channel_of(self.pixels@, self.width as int, x, y, c)
    }

    /// Builds a raster from its dimensions and a flat channel buffer;
    /// rejects empty dimensions and a buffer whose length does not match.
    pub fn new(width: u32, height: u32, pixels: Vec<u8>) -> (r: Option<Raster>)
        ensures
            r is Some <==> (0 < width && 0 < height
                && pixels@.len() == 3 * (width as int) * (height as int)),
            r is Some ==> r->0 == (Raster { width, height, pixels }),
            r is Some ==> r->0.wf(),
    {
        if width == 0 || height == 0 {
            return None;
        }
        proof {
            lemma_dims_product_fits(width as int, height as int);
        }
        let area: u128 = (width as u128) * (height as u128);
        if (pixels.len() as u128) == 3 * area {
            Some(Raster { width, height, pixels })
        } else {
            None
        }
    }

    /// Reads one channel byte.
    pub fn channel_at(&self, x: u32, y: u32, c: u32) -> (r: u8)
        requires
            self.wf(),
            x < self.width,
            y < self.height,
            c < 3,
        ensures
            r == self.channel(x as int, y as int, c as int),
    {
        let n: usize = self.pixels.len();
        proof {
            lemma_channel_index_in_bounds(
                self.width as int, self.height as int, x as int, y as int, c as int);
            assert(3 * ((y as int) * (self.width as int) + x as int) + c < n);
        }
        let row: usize = (y as usize) * (self.width as usize);
        let idx: usize = 3 * (row + (x as usize)) + (c as usize);
        self.pixels[idx]
    }
}

} // verus!
