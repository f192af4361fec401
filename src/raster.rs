//! A decoded RGB pixel grid, three bytes per pixel in row-major order.
use vstd::prelude::*;

verus! {

/// Bytes per pixel: red, green, blue.
pub const CHANNELS: usize = 3;

/// An RGB image: `pixels` holds `width * height` pixels, row by row, each
/// as three bytes.
#[derive(Clone, Debug)]
pub struct Raster {
    pub width: u32,
    pub height: u32,
    pub pixels: Vec<u8>,
}

/// Channel `c` of pixel `(x, y)` in a row-major RGB buffer of the given width.
pub open spec fn channel_at(pixels: Seq<u8>, width: int, x: int, y: int, c: int) -> u8 {
    pixels[(y * width + x) * 3 + c]
}

impl Raster {
    /// The buffer holds exactly one RGB triple per pixel.
    pub open spec fn wf(&self) -> bool {
        self.pixels@.len() == self.width * self.height * 3
    }

    /// Channel `c` of pixel `(x, y)`.
    pub open spec fn channel(&self, x: int, y: int, c: int) -> u8 {
        channel_at(self.pixels@, self.width as int, x, y, c)
    }

    /// Channel `c` of pixel `(x, y)`; `c` is 0 for red, 1 for green, 2 for blue.
    pub fn channel_value(&self, x: u32, y: u32, c: usize) -> (r: u8)
        requires
            self.wf(),
            x < self.width,
            y < self.height,
            c < CHANNELS,
        ensures
            r == self.channel(x as int, y as int, c as int),
    {
        let n = self.pixels.len();
        proof {
            lemma_pixel_in_grid(self.width as int, self.height as int, x as int, y as int);
        }
        let i = ((y as usize) * (self.width as usize) + (x as usize)) * CHANNELS + c;
        self.pixels[i]
    }
}

/// A pixel inside a `width` by `height` grid has a row-major index below
/// `width * height`.
pub proof fn lemma_pixel_in_grid(width: int, height: int, x: int, y: int)
    requires
        0 <= x < width,
        0 <= y < height,
    ensures
        0 <= y * width + x < width * height,
        0 <= (y * width + x) * 3 + 2 < width * height * 3,
{
    assert(0 <= y * width) by (nonlinear_arith)
        requires
            0 <= y,
            0 <= width,
    ;
    assert(y * width + x < width * height) by (nonlinear_arith)
        requires
            0 <= x < width,
            0 <= y < height,
    ;
}

/// The row-major index `y * width + x` gives back the column and the row.
pub proof fn lemma_pixel_coordinates(width: int, x: int, y: int)
    requires
        0 <= x < width,
    ensures
        (y * width + x) / width == y,
        (y * width + x) % width == x,
{
    vstd::arithmetic::div_mod::lemma_fundamental_div_mod_converse(y * width + x, width, y, x);
}

} // verus!
