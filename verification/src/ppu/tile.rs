//! A background tile decoded from 16 bytes of pattern-table data into an
//! 8 x 8 grid of two-bit pixels.

use crate::ppu::sprite::pixel_grid_wf;
use crate::ppu::sprite::plane_pixel;
use vstd::prelude::*;

verus! {

#[derive(Debug, Clone)]
pub struct Tile {
    pub pixels: Vec<Vec<u8>>,
    pub index: usize,
}

impl Tile {
    pub open spec fn wf(&self) -> bool {
        pixel_grid_wf(self.pixels@.map_values(|row: Vec<u8>| row@))
    }

    pub fn new() -> (r: Tile)
        ensures
            r.wf(),
            r.index == 0,
            forall|j: int, k: int| 0 <= j < 8 && 0 <= k < 8 ==> r.pixels@[j]@[k] == 0u8,
    {
        let mut pixels: Vec<Vec<u8>> = Vec::new();
        let mut j: usize = 0;
        while j < 8
            invariant
                j <= 8,
                pixels@.len() == j,
                forall|a: int| 0 <= a < j ==> (#[trigger] pixels@[a])@.len() == 8,
                forall|a: int, k: int| 0 <= a < j && 0 <= k < 8 ==> pixels@[a]@[k] == 0u8,
            decreases 8 - j,
        {
            let mut row: Vec<u8> = Vec::new();
            row.resize(8, 0u8);
            pixels.push(row);
            j = j + 1;
        }
        Tile { pixels, index: 0 }
    }

    /// Decodes a 16-byte pattern slice into the pixel grid and records the
    /// tile's index.
    pub fn build_tile(&mut self, slice: &Vec<u8>, index: usize)
        requires
            slice@.len() == 16,
        ensures
            final(self).wf(),
            forall|j: int, k: int|
                0 <= j < 8 && 0 <= k < 8 ==> final(self).pixels@[j]@[k] == plane_pixel(
                    slice@[j],
                    slice@[j + 8],
                    k as u8,
                ),
            final(self).index == index,
    {
        self.pixels = crate::ppu::sprite::decode_pattern_grid(slice);
        self.index = index;
    }

    /// Pixel at row `j`, column `k` of the decoded grid.
    pub fn pixel(&self, j: usize, k: usize) -> (r: u8)
        requires
            self.wf(),
            j < 8,
            k < 8,
        ensures
            r == self.pixels@[j as int]@[k as int],
    {
        proof {
            assert(self.pixels@.map_values(|row: Vec<u8>| row@)[j as int]
                == self.pixels@[j as int]@);
        }
        self.pixels[j][k]
    }
}

} // verus!
