//! Background tile pipeline: the per-dot fetch phases and the 16-entry
//! window of decoded palette indices that pixel selection reads.
//!
//! Phases, relative to `dot % 8`: 1 fetches the nametable byte's address,
//! 3 the attribute quadrant, 5 and 7 the two pattern planes; at phase 0
//! the finished 8 pixels land in the upper half of the window, which
//! slides one entry per dot.

use crate::ppu::mem::ppumem_read;
use crate::ppu::mem::PpuMemV;
use crate::ppu::mem::PpuMem;
use crate::ppu::register::PpuRegister;
use crate::renderer::frame_set_pixel;
use crate::renderer::get_rgb;
use crate::renderer::Frame;
use crate::ppu::colors::spec_color;
use crate::ppu::palette::pal_index;
use vstd::prelude::*;

verus! {

/// The pipeline's latches, as plain values.
pub struct BackgroundV {
    pub tiles_data: Seq<u8>,
    pub nametable_addr: int,
    pub tile_addr: int,
    pub tile_attr: u8,
    pub tile_low_byte: u8,
    pub tile_hi_byte: u8,
}

pub struct Background {
    /// Decoded palette indices for the next 16 dots; entry 0 (plus fine
    /// X) is the pixel the current dot shows.
    pub tiles_data: Vec<u8>,
    pub nametable_addr: usize,
    pub tile_addr: usize,
    pub tile_attr: u8,
    pub tile_low_byte: u8,
    pub tile_hi_byte: u8,
}

impl View for Background {
    type V = BackgroundV;

    open spec fn view(&self) -> BackgroundV {
        BackgroundV {
            tiles_data: self.tiles_data@,
            nametable_addr: self.nametable_addr as int,
            tile_addr: self.tile_addr as int,
            tile_attr: self.tile_attr,
            tile_low_byte: self.tile_low_byte,
            tile_hi_byte: self.tile_hi_byte,
        }
    }
}

/// Palette cell ($3F00-$3F0F) that window entry `fine_x` selects; a
/// transparent pattern falls back to the universal background at $3F00.
pub open spec fn bgv_pixel_entry(bg: BackgroundV, fine_x: u16) -> u8 {
    let px = bg.tiles_data[fine_x as int];
    if px & 3 == 0 {
        0u8
    } else {
        (px & 0x0F) as u8
    }
}

/// RGB channels of the colour that palette cell `entry` ($3F00 + entry)
/// holds.
pub open spec fn bg_pixel_rgb(mem: PpuMemV, entry: u8) -> (u8, u8, u8) {
    let c = spec_color(mem.palette[pal_index(0x3F00 + entry)]);
    ((((c & 0xFF0000) >> 16) as u8), (((c & 0x00FF00) >> 8) as u8), ((c & 0x0000FF) as u8))
}

/// Window entry built from the attribute bits and bit `7 - k` of the two
/// pattern planes.
pub open spec fn bg_entry(attr: u8, lo: u8, hi: u8, k: u8) -> u8 {
    (attr | ((lo >> ((7 - k) as u8)) & 1) | ((((hi >> ((7 - k) as u8)) & 1) as u8) << 1)) as u8
}

impl Background {
    pub open spec fn wf(&self) -> bool {
        &&& self.tiles_data@.len() == 16
        &&& 0x2000 <= self.nametable_addr < 0x3000
        &&& self.tile_addr < 0x2000
    }

    pub fn new() -> (r: Background)
        ensures
            r.wf(),
            forall|i: int| 0 <= i < 16 ==> r@.tiles_data[i] == 0u8,
            r@.nametable_addr == 0x2000,
            r@.tile_addr == 0,
            r@.tile_attr == 0,
            r@.tile_low_byte == 0,
            r@.tile_hi_byte == 0,
    {
        let mut tiles_data: Vec<u8> = Vec::new();
        tiles_data.resize(16, 0u8);
        Background {
            tiles_data,
            nametable_addr: 0x2000,
            tile_addr: 0,
            tile_attr: 0,
            tile_low_byte: 0,
            tile_hi_byte: 0,
        }
    }

    /// Phase 1: the nametable cell that `v` points into, `$2000 | (v & $0FFF)`.
    pub fn fetch_nametable(&mut self, register: &PpuRegister)
        requires
            old(self).wf(),
        ensures
            final(self).wf(),
            final(self).nametable_addr == (0x2000u16 | (register.r_addr & 0x0FFF)) as usize,
            final(self).tiles_data@ == old(self).tiles_data@,
            final(self).tile_addr == old(self).tile_addr,
            final(self).tile_attr == old(self).tile_attr,
            final(self).tile_low_byte == old(self).tile_low_byte,
            final(self).tile_hi_byte == old(self).tile_hi_byte,
    {
        let v = register.get_addr();
        proof {
            assert(0x2000 <= (0x2000u16 | (v & 0x0FFF)) < 0x3000) by (bit_vector);
        }
        self.nametable_addr = (0x2000u16 | (v & 0x0FFF)) as usize;
    }

    /// Attribute byte address for `v`, `$23C0 | NT-select | quadrant bits`.
    pub open spec fn spec_attr_addr(v: u16) -> u16 {
        (0x23C0u16 | (v & 0x0C00) | ((v >> 4) & 0x38) | ((v >> 2) & 0x07)) as u16
    }

    /// Phase 3: reads the attribute byte and keeps this tile's two
    /// palette-select bits, already shifted into bits 2-3.
    pub fn fetch_attribute(&mut self, vram: &PpuMem, register: &PpuRegister)
        requires
            old(self).wf(),
            vram.wf(),
        ensures
            final(self).wf(),
            final(self).tile_attr == ((ppumem_read(vram@, Background::spec_attr_addr(register.r_addr) as int)
                >> ((((register.r_addr >> 4) & 4) | (register.r_addr & 2)) as u8)) & 3) << 2,
            final(self).tiles_data@ == old(self).tiles_data@,
            final(self).nametable_addr == old(self).nametable_addr,
            final(self).tile_addr == old(self).tile_addr,
            final(self).tile_low_byte == old(self).tile_low_byte,
            final(self).tile_hi_byte == old(self).tile_hi_byte,
    {
        let v = register.get_addr();
        let addr = 0x23C0 | (v & 0x0C00) | ((v >> 4) & 0x38) | ((v >> 2) & 0x07);
        let shift = (((v >> 4) & 4) | (v & 2)) as u8;
        proof {
            assert((0x23C0u16 | (v & 0x0C00) | ((v >> 4) & 0x38) | ((v >> 2) & 0x07)) < 0x3000)
                by (bit_vector);
            assert((((v >> 4) & 4) | (v & 2)) < 8) by (bit_vector);
        }
        self.tile_attr = ((vram.peek(addr as usize) >> shift) & 3) << 2;
    }

    /// Pattern address of the current tile's low plane: the PPUCTRL
    /// table base, the nametable byte times 16, and fine Y.
    pub open spec fn spec_pattern_addr(nt_byte: u8, bg_table: u8, v: u16) -> int {
        bg_table * 0x1000 + nt_byte * 16 + ((v >> 12) & 7)
    }

    /// Phase 5: fetches the low pattern plane of the tile under
    /// `nametable_addr`.
    pub fn fetch_loworder_byte(&mut self, vram: &PpuMem, register: &PpuRegister)
        requires
            old(self).wf(),
            vram.wf(),
        ensures
            final(self).wf(),
            final(self).tile_addr == Background::spec_pattern_addr(
                ppumem_read(vram@, old(self).nametable_addr as int),
                (register.r_ctrl_zero >> 4) & 0x01,
                register.r_addr,
            ),
            final(self).tile_low_byte == ppumem_read(vram@, final(self).tile_addr as int),
            final(self).tiles_data@ == old(self).tiles_data@,
            final(self).nametable_addr == old(self).nametable_addr,
            final(self).tile_attr == old(self).tile_attr,
            final(self).tile_hi_byte == old(self).tile_hi_byte,
    {
        let v = register.get_addr();
        let fine_y = ((v >> 12) & 7) as usize;
        proof {
            assert(((v >> 12) & 7) < 8) by (bit_vector);
        }
        let background_table = register.get_background_table() as usize * 0x1000;
        proof {
            let c = register.r_ctrl_zero;
            assert(((c >> 4) & 0x01) <= 1) by (bit_vector);
        }
        let nt_byte = vram.peek(self.nametable_addr);
        self.tile_addr = background_table + (nt_byte as usize) * 16 + fine_y;
        self.tile_low_byte = vram.peek(self.tile_addr);
    }

    /// Phase 7: fetches the high pattern plane, eight bytes above the low
    /// one.
    pub fn fetch_highorder_byte(&mut self, vram: &PpuMem, register: &PpuRegister)
        requires
            old(self).wf(),
            vram.wf(),
        ensures
            final(self).wf(),
            final(self).tile_addr == 8 + Background::spec_pattern_addr(
                ppumem_read(vram@, old(self).nametable_addr as int),
                (register.r_ctrl_zero >> 4) & 0x01,
                register.r_addr,
            ),
            final(self).tile_hi_byte == ppumem_read(vram@, final(self).tile_addr as int),
            final(self).tiles_data@ == old(self).tiles_data@,
            final(self).nametable_addr == old(self).nametable_addr,
            final(self).tile_attr == old(self).tile_attr,
            final(self).tile_low_byte == old(self).tile_low_byte,
    {
        let v = register.get_addr();
        let fine_y = ((v >> 12) & 7) as usize;
        proof {
            assert(((v >> 12) & 7) < 8) by (bit_vector);
        }
        let background_table = register.get_background_table() as usize * 0x1000;
        proof {
            let c = register.r_ctrl_zero;
            assert(((c >> 4) & 0x01) <= 1) by (bit_vector);
        }
        let nt_byte = vram.peek(self.nametable_addr);
        self.tile_addr = 8 + background_table + (nt_byte as usize) * 16 + fine_y;
        self.tile_hi_byte = vram.peek(self.tile_addr);
    }

    /// Phase 0: decodes the fetched tile row into the upper half of the
    /// window (entries 7-14), leaving both pattern latches shifted out.
    pub fn store_tile_data(&mut self)
        requires
            old(self).wf(),
        ensures
            final(self).wf(),
            forall|k: int|
                7 <= k < 15 ==> final(self).tiles_data@[k] == bg_entry(
                    old(self).tile_attr,
                    old(self).tile_low_byte,
                    old(self).tile_hi_byte,
                    (k - 7) as u8,
                ),
            forall|i: int| 0 <= i < 7 ==> final(self).tiles_data@[i] == old(self).tiles_data@[i],
            final(self).tiles_data@[15] == old(self).tiles_data@[15],
            final(self).nametable_addr == old(self).nametable_addr,
            final(self).tile_addr == old(self).tile_addr,
            final(self).tile_attr == old(self).tile_attr,
            final(self).tile_low_byte == 0,
            final(self).tile_hi_byte == 0,
    {
        let mut k: u8 = 0;
        while k < 8
            invariant
                self.wf(),
                k <= 8,
                self.nametable_addr == old(self).nametable_addr,
                self.tile_addr == old(self).tile_addr,
                self.tile_attr == old(self).tile_attr,
                self.tile_low_byte == old(self).tile_low_byte,
                self.tile_hi_byte == old(self).tile_hi_byte,
                forall|j: int|
                    7 <= j < 7 + k ==> self.tiles_data@[j] == bg_entry(
                        old(self).tile_attr,
                        old(self).tile_low_byte,
                        old(self).tile_hi_byte,
                        (j - 7) as u8,
                    ),
                forall|i: int| 0 <= i < 7 ==> self.tiles_data@[i] == old(self).tiles_data@[i],
                self.tiles_data@[15] == old(self).tiles_data@[15],
            decreases 8 - k,
        {
            let low = (self.tile_low_byte >> (7 - k)) & 1;
            let hi = (self.tile_hi_byte >> (7 - k)) & 1;
            let entry = self.tile_attr | low | (hi << 1);
            self.tiles_data[7 + k as usize] = entry;
            k = k + 1;
        }
        self.tile_low_byte = 0;
        self.tile_hi_byte = 0;
    }

    /// Slides the window one dot: each entry takes the next one's value,
    /// the last keeps its own.
    pub fn shit_tile_data(&mut self)
        requires
            old(self).wf(),
        ensures
            final(self).wf(),
            forall|i: int| 0 <= i < 15 ==> final(self).tiles_data@[i] == old(self).tiles_data@[i + 1],
            final(self).tiles_data@[15] == old(self).tiles_data@[15],
            final(self).nametable_addr == old(self).nametable_addr,
            final(self).tile_addr == old(self).tile_addr,
            final(self).tile_attr == old(self).tile_attr,
            final(self).tile_low_byte == old(self).tile_low_byte,
            final(self).tile_hi_byte == old(self).tile_hi_byte,
    {
        let mut i: usize = 0;
        while i < 15
            invariant
                self.wf(),
                i <= 15,
                self.nametable_addr == old(self).nametable_addr,
                self.tile_addr == old(self).tile_addr,
                self.tile_attr == old(self).tile_attr,
                self.tile_low_byte == old(self).tile_low_byte,
                self.tile_hi_byte == old(self).tile_hi_byte,
                forall|j: int| 0 <= j < i ==> self.tiles_data@[j] == old(self).tiles_data@[j + 1],
                forall|j: int| i <= j < 16 ==> self.tiles_data@[j] == old(self).tiles_data@[j],
            decreases 15 - i,
        {
            self.tiles_data[i] = self.tiles_data[i + 1];
            i = i + 1;
        }
    }

    /// Empties the window.
    pub fn clear_data(&mut self)
        requires
            old(self).wf(),
        ensures
            final(self).wf(),
            forall|i: int| 0 <= i < 16 ==> final(self).tiles_data@[i] == 0u8,
            final(self).nametable_addr == old(self).nametable_addr,
            final(self).tile_addr == old(self).tile_addr,
            final(self).tile_attr == old(self).tile_attr,
            final(self).tile_low_byte == old(self).tile_low_byte,
            final(self).tile_hi_byte == old(self).tile_hi_byte,
    {
        let mut tiles_data: Vec<u8> = Vec::new();
        tiles_data.resize(16, 0u8);
        self.tiles_data = tiles_data;
    }

    /// Palette cell ($3F00-$3F0F) that the current dot's background pixel
    /// selects: window entry `x` (fine X), with a transparent pattern
    /// falling back to the universal background at $3F00.
    pub open spec fn spec_pixel_entry(self, fine_x: u16) -> u8 {
        bgv_pixel_entry(self@, fine_x)
    }

    /// Paints the background pixel for (dot, line) when PPUMASK shows the
    /// background; dots count from 1, pixels from 0.
    pub fn render(
        &self,
        dot: u32,
        line: u32,
        frame: &mut Frame,
        vram: &PpuMem,
        register: &PpuRegister,
    )
        requires
            self.wf(),
            old(frame).wf(),
            vram.wf(),
            register.wf(),
            1 <= dot <= 256,
        ensures
            final(frame).wf(),
            (register.r_ctrl_one >> 3) & 0x01 == 1 ==> final(frame)@ == frame_set_pixel(
                old(frame)@,
                (dot - 1) as u32,
                line,
                bg_pixel_rgb(vram@, self.spec_pixel_entry(register.r_fine_scroll_x)),
            ),
            (register.r_ctrl_one >> 3) & 0x01 != 1 ==> final(frame)@ == old(frame)@,
    {
        proof {
            let c = register.r_ctrl_one;
            assert(((c >> 3) & 0x01) <= 1) by (bit_vector);
        }
        if register.get_background_visibility() == 0 {
            return ;
        }
        let fine_x = register.get_r_fine_scroll_x() as usize;
        let px = self.tiles_data[fine_x];
        let entry: u8 = if px & 3 == 0 {
            0u8
        } else {
            px & 0x0F
        };
        proof {
            let p = px;
            assert((p & 0x0F) < 16) by (bit_vector);
        }
        let color = vram.palette.peek_color_background(entry);
        proof {
            let e = self.spec_pixel_entry(register.r_fine_scroll_x);
            assert(entry == e);
            assert(0 <= e < 16);
            assert(pal_index(0x3F00 + e) == e) by {
                vstd::arithmetic::div_mod::lemma_small_mod(e as nat, 32nat);
            }
            assert(color == spec_color(vram@.palette[pal_index(0x3F00 + e)]));
        }
        let rgb = get_rgb(color);
        proof {
            let e = self.spec_pixel_entry(register.r_fine_scroll_x);
            let c = spec_color(vram@.palette[pal_index(0x3F00 + e)]);
            assert(rgb.0 == (((c & 0xFF0000) >> 16) as u8));
            assert(rgb.1 == (((c & 0x00FF00) >> 8) as u8));
            assert(rgb.2 == ((c & 0x0000FF) as u8));
        }
        frame.set_pixel_rgb(dot - 1, line, rgb);
    }
}

} // verus!
