//! A grayscale pixel grid and the sampler that reads one pixel's binary
//! color state.

use vstd::prelude::*;

verus! {

/// The intensity of a pure white pixel; anything below it counts as black.
pub const WHITE: u8 = 255;

/// A grayscale image held as one intensity byte per pixel, row-major:
/// the pixel at column `c`, row `r` sits at index `r * width + c`.
pub struct PixelGrid {
    width: u32,
    height: u32,
    data: Vec<u8>,
}

impl PixelGrid {
    /// Well-formed: the buffer holds exactly one intensity per cell.
    pub closed spec fn wf(self) -> bool {
        self.data@.len() == self.width * self.height
    }

    pub closed spec fn spec_width(self) -> u32 {
        self.width
    }

    pub closed spec fn spec_height(self) -> u32 {
        self.height
    }

    /// The intensity stored at (col, row).
    pub closed spec fn intensity(self, col: int, row: int) -> u8 {
        self.data@[row * self.width + col]
    }

    /// The binary color at (col, row): 0 for pure white, 1 for anything else.
    pub open spec fn bit_at(self, col: int, row: int) -> u8 {
        if self.intensity(col, row) == WHITE {
            0u8
        } else {
            1u8
        }
    }

    /// Wraps a raw row-major intensity buffer; rejects one whose length does
    /// not match the dimensions.
    pub fn new(width: u32, height: u32, data: Vec<u8>) -> (r: Option<PixelGrid>)
        ensures
            r is Some <==> data@.len() == width * height,
            r is Some ==> {
                let g = r->Some_0;
                &&& g.wf()
                &&& g.spec_width() == width
                &&& g.spec_height() == height
                &&& forall|col: int, row: int|
                    0 <= col < width && 0 <= row < height ==> g.intensity(col, row) == data@[row
                        * width + col]
            },
    {
        assert((width as u64) * (height as u64) <= u64::MAX) by (nonlinear_arith)
            requires
                width <= u32::MAX,
                height <= u32::MAX,
        ;
        if (data.len() as u64) == (width as u64) * (height as u64) {
            Some(PixelGrid { width, height, data })
        } else {
            None
        }
    }

    pub fn width(&self) -> (r: u32)
        ensures
            r == self.spec_width(),
    {
        self.width
    }

    pub fn height(&self) -> (r: u32)
        ensures
            r == self.spec_height(),
    {
        self.height
    }
}

/// Reads the binary color state of one pixel: 0 if the intensity is pure
/// white, 1 otherwise.
pub fn sample(grid: &PixelGrid, col: u32, row: u32) -> (r: u8)
    requires
        grid.wf(),
        col < grid.spec_width(),
        row < grid.spec_height(),
    ensures
        r == grid.bit_at(col as int, row as int),
{
    let w = grid.width;
    let n = grid.data.len();
    assert(row * w + col < w * grid.height) by (nonlinear_arith)
        requires
            row < grid.height,
            col < w,
    ;
    assert(row * w + col < n);
    let idx: usize = (row as usize) * (w as usize) + (col as usize);
    let intensity = grid.data[idx];
    if intensity == WHITE {
        0
    } else {
        1
    }
}

} // verus!
