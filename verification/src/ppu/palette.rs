//! 32 bytes of palette RAM at $3F00-$3F1F, mirrored through $3FFF.
//!
//! Entries $3F10, $3F14, $3F18 and $3F1C alias $3F00, $3F04, $3F08 and
//! $3F0C: reads and writes of either address reach the same cell.

use crate::ppu::colors::color_rgb;
use crate::ppu::colors::spec_color;
use vstd::prelude::*;

verus! {

/// Cell of the 32-byte palette RAM that PPU address `i` ($3F00-$3FFF)
/// reaches, after mirroring and the sprite-column aliasing.
pub open spec fn pal_index(i: int) -> int {
    let idx = (i - 0x3F00) % 32;
    if idx >= 16 && idx % 4 == 0 {
        idx - 16
    } else {
        idx
    }
}

pub struct Palette {
    /// Cells $3F00-$3F0F.
    pub background: Vec<u8>,
    /// Cells $3F10-$3F1F (the four aliased cells stay in `background`).
    pub sprite: Vec<u8>,
}

impl View for Palette {
    type V = Seq<u8>;

    /// The 32 palette cells in address order.
    open spec fn view(&self) -> Seq<u8> {
        self.background@ + self.sprite@
    }
}

impl Palette {
    pub open spec fn wf(&self) -> bool {
        self.background@.len() == 16 && self.sprite@.len() == 16
    }

    /// Palette after a write of `v` at PPU address `i`.
    pub open spec fn spec_write(self, i: int, v: u8) -> Seq<u8> {
        self@.update(pal_index(i), v)
    }

    pub fn new() -> (r: Palette)
        ensures
            r.wf(),
            r@ == Seq::<u8>::new(32, |i: int| 0u8),
    {
        let mut background: Vec<u8> = Vec::new();
        background.resize(16, 0u8);
        let mut sprite: Vec<u8> = Vec::new();
        sprite.resize(16, 0u8);
        let r = Palette { background, sprite };
        proof {
            assert(r@ =~= Seq::<u8>::new(32, |i: int| 0u8));
        }
        r
    }

    /// Exec mirror of `pal_index` for an address in $3F00-$3FFF.
    fn cell(i: usize) -> (r: usize)
        requires
            0x3F00 <= i < 0x4000,
        ensures
            r == pal_index(i as int),
            r < 32,
    {
        let idx = (i - 0x3F00) % 32;
        if idx >= 16 && idx % 4 == 0 {
            idx - 16
        } else {
            idx
        }
    }

    /// Raw palette byte that a PPUDATA read of address `i` returns.
    pub fn peek(&self, i: usize) -> (r: u8)
        requires
            self.wf(),
            0x3F00 <= i < 0x4000,
        ensures
            r == self@[pal_index(i as int)],
    {
        let idx = Palette::cell(i);
        if idx < 16 {
            self.background[idx]
        } else {
            self.sprite[idx - 16]
        }
    }

    /// Raw palette write of `v` at PPU address `i`.
    pub fn write(&mut self, i: usize, v: u8)
        requires
            old(self).wf(),
            0x3F00 <= i < 0x4000,
        ensures
            final(self).wf(),
            final(self)@ == old(self).spec_write(i as int, v),
    {
        let idx = Palette::cell(i);
        if idx < 16 {
            self.background[idx] = v;
        } else {
            self.sprite[idx - 16] = v;
        }
        proof {
            assert(self@ =~= old(self).spec_write(i as int, v));
        }
    }

    /// Write into the background half, $3F00-$3F0F.
    pub fn write_background(&mut self, i: usize, v: u8)
        requires
            old(self).wf(),
            0x3F00 <= i < 0x3F10,
        ensures
            final(self).wf(),
            final(self)@ == old(self).spec_write(i as int, v),
    {
        self.write(i, v);
    }

    /// Write into the sprite half, $3F10-$3F1F; the four aliased cells
    /// land in the background half.
    pub fn write_sprite(&mut self, i: usize, v: u8)
        requires
            old(self).wf(),
            0x3F10 <= i < 0x3F20,
        ensures
            final(self).wf(),
            final(self)@ == old(self).spec_write(i as int, v),
    {
        self.write(i, v);
    }

    /// RGB colour of background palette entry `v` ($3F00 + v).
    pub fn peek_color_background(&self, v: u8) -> (r: u32)
        requires
            self.wf(),
            v < 16,
        ensures
            r == spec_color(self@[v as int]),
    {
        color_rgb(self.background[v as usize])
    }

    /// RGB colour of entry `v` of sprite palette `index`; entry 0 of each
    /// sprite palette aliases the matching background cell.
    pub fn peek_color_sprite(&self, index: u8, v: u8) -> (r: u32)
        requires
            self.wf(),
            index < 4,
            v < 4,
        ensures
            r == spec_color(self@[pal_index(0x3F10 + index * 4 + v)]),
    {
        let idx: usize = index as usize * 4 + v as usize;
        if v == 0 {
            color_rgb(self.background[idx])
        } else {
            color_rgb(self.sprite[idx])
        }
    }
}

} // verus!
