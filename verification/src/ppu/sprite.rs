//! Object attribute memory: 64 sprites of 4 bytes each, plus the 32-byte
//! secondary OAM that sprite evaluation fills per scanline, and a decoded
//! sprite tile.

use vstd::prelude::*;

verus! {

pub const OAM_SIZE: usize = 0x100;
pub const SECONDARY_OAM_SIZE: usize = 0x20;

pub struct SpriteMem {
    pub oam: Vec<u8>,
    pub secondary_oam: Vec<u8>,
}

impl View for SpriteMem {
    type V = Seq<u8>;

    /// The 256 primary OAM bytes.
    open spec fn view(&self) -> Seq<u8> {
        self.oam@
    }
}

impl SpriteMem {
    pub open spec fn wf(&self) -> bool {
        self.oam@.len() == OAM_SIZE && self.secondary_oam@.len() == SECONDARY_OAM_SIZE
    }

    pub fn new() -> (r: SpriteMem)
        ensures
            r.wf(),
            r@ == Seq::<u8>::new(OAM_SIZE as nat, |i: int| 0u8),
    {
        let mut oam: Vec<u8> = Vec::new();
        oam.resize(OAM_SIZE, 0u8);
        let mut secondary_oam: Vec<u8> = Vec::new();
        secondary_oam.resize(SECONDARY_OAM_SIZE, 0u8);
        let r = SpriteMem { oam, secondary_oam };
        proof {
            assert(r@ =~= Seq::<u8>::new(OAM_SIZE as nat, |i: int| 0u8));
        }
        r
    }

    /// Stores one OAM byte; hands the written byte back.
    pub fn write_data(&mut self, i: usize, value: u8) -> (r: u8)
        requires
            old(self).wf(),
            i < OAM_SIZE,
        ensures
            final(self).wf(),
            final(self)@ == old(self)@.update(i as int, value),
            final(self).secondary_oam@ == old(self).secondary_oam@,
            r == value,
    {
        self.oam[i] = value;
        value
    }

    pub fn get_oam(&self) -> (r: &Vec<u8>)
        ensures
            r@ == self@,
    {
        &self.oam
    }

    pub fn get_secondary(&self) -> (r: &Vec<u8>)
        ensures
            r@ == self.secondary_oam@,
    {
        &self.secondary_oam
    }
}

/// Two-bit pixel decoded from a pair of pattern-plane bytes; the low
/// plane supplies bit 1 and the high plane bit 0, as the renderer here
/// consumes them.
pub open spec fn plane_pixel(lo: u8, hi: u8, k: u8) -> u8 {
    (((lo >> ((7 - k) as u8)) & 1) << 1 | ((hi >> ((7 - k) as u8)) & 1)) as u8
}

pub struct Sprite {
    pub coord_y: u8,
    pub coord_x: u8,
    pub index: u8,
    pub pixels: Vec<Vec<u8>>,
    pub flags: u8,
}

/// An 8 x 8 grid of two-bit pixels.
pub open spec fn pixel_grid_wf(pixels: Seq<Seq<u8>>) -> bool {
    pixels.len() == 8 && forall|j: int| 0 <= j < 8 ==> (#[trigger] pixels[j]).len() == 8
}

/// Builds the 8 x 8 pixel grid that a 16-byte pattern-tile slice decodes to.
pub(crate) fn decode_pattern_grid(slice: &Vec<u8>) -> (r: Vec<Vec<u8>>)
    requires
        slice@.len() == 16,
    ensures
        pixel_grid_wf(r@.map_values(|row: Vec<u8>| row@)),
        forall|j: int, k: int|
            0 <= j < 8 && 0 <= k < 8 ==> r@[j]@[k] == plane_pixel(
                slice@[j],
                slice@[j + 8],
                k as u8,
            ),
{
    let mut rows: Vec<Vec<u8>> = Vec::new();
    let mut j: usize = 0;
    while j < 8
        invariant
            j <= 8,
            slice@.len() == 16,
            rows@.len() == j,
            forall|a: int| 0 <= a < j ==> (#[trigger] rows@[a])@.len() == 8,
            forall|a: int, k: int|
                0 <= a < j && 0 <= k < 8 ==> rows@[a]@[k] == plane_pixel(
                    slice@[a],
                    slice@[a + 8],
                    k as u8,
                ),
        decreases 8 - j,
    {
        let lo = slice[j];
        let hi = slice[j + 8];
        let mut row: Vec<u8> = Vec::new();
        let mut k: u8 = 0;
        while k < 8
            invariant
                k <= 8,
                row@.len() == k,
                forall|b: int| 0 <= b < k ==> row@[b] == plane_pixel(lo, hi, b as u8),
            decreases 8 - k,
        {
            let px = ((lo >> (7 - k)) & 1) << 1 | ((hi >> (7 - k)) & 1);
            row.push(px);
            k = k + 1;
        }
        rows.push(row);
        j = j + 1;
    }
    rows
}

impl Sprite {
    /// Builds a sprite shell whose coordinate and flag fields pick bits of
    /// `value` apart, with a blank pixel grid.
    pub fn new(value: u8) -> (r: Sprite)
        ensures
            r.coord_x == value & 0x08,
            r.coord_y == value & 0x01,
            r.index == value & 0x02,
            r.flags == value & 0x04,
            pixel_grid_wf(r.pixels@.map_values(|row: Vec<u8>| row@)),
            forall|j: int, k: int| 0 <= j < 8 && 0 <= k < 8 ==> r.pixels@[j]@[k] == 0u8,
    {
        let mut pixels: Vec<Vec<u8>> = Vec::new();
        let mut j: usize = 0;
        while j < 8
            invariant
                j <= 8,
                pixels@.len() == j,
                forall|a: int| 0 <= a < j ==> (#[trigger] pixels@[a])@.len() == 8,
                forall|a: int, k: int| 0 <= a < j && 0 <= k < 8 ==> pixels@[a]@[k] == 0u8,
            decreases 8 - j,
        {
            let mut row: Vec<u8> = Vec::new();
            row.resize(8, 0u8);
            pixels.push(row);
            j = j + 1;
        }
        Sprite {
            coord_x: value & 0x08,
            coord_y: value & 0x01,
            index: value & 0x02,
            pixels,
            flags: value & 0x04,
        }
    }

    /// Decodes a 16-byte pattern slice into this sprite's pixel grid.
    pub fn build_sprite(&mut self, slice: &Vec<u8>)
        requires
            slice@.len() == 16,
        ensures
            pixel_grid_wf(final(self).pixels@.map_values(|row: Vec<u8>| row@)),
            forall|j: int, k: int|
                0 <= j < 8 && 0 <= k < 8 ==> final(self).pixels@[j]@[k] == plane_pixel(
                    slice@[j],
                    slice@[j + 8],
                    k as u8,
                ),
            final(self).coord_x == old(self).coord_x,
            final(self).coord_y == old(self).coord_y,
            final(self).index == old(self).index,
            final(self).flags == old(self).flags,
    {
        self.pixels = decode_pattern_grid(slice);
    }

    pub fn get_index(&self) -> (r: u8)
        ensures
            r == self.index,
    {
        self.index
    }
}

} // verus!
