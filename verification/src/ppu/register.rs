//! CPU-facing PPU registers $2000-$2007 and the internal "loopy" latches:
//! the 15-bit current VRAM address `v`, the 15-bit temporary address `t`,
//! the 3-bit fine-X scroll `x` and the 1-bit write toggle `w`.
//!
//! Writes to $2005 and $2006 toggle `w`; a read of $2002 clears `w` and
//! the VBlank bit. `v` and `t` never leave 15 bits: every operation here
//! keeps them under 0x8000.

use crate::cpu::memory::ram_read;
use crate::cpu::memory::Ram;
use crate::ppu::mem::ppumem_read;
use crate::ppu::mem::ppumem_write;
use crate::ppu::mem::PpuMem;
use crate::ppu::mem::PpuMemV;
use crate::ppu::sprite::OAM_SIZE;
use vstd::prelude::*;

verus! {

#[derive(Clone, Copy, PartialEq, Eq, Structural, Debug)]
pub struct PpuRegister {
    /// PPUCTRL ($2000).
    pub r_ctrl_zero: u8,
    /// PPUMASK ($2001).
    pub r_ctrl_one: u8,
    /// PPUSTATUS bit 7.
    pub s_vblank: bool,
    /// PPUSTATUS bit 6.
    pub s_sprite_zero: bool,
    /// PPUSTATUS bit 5.
    pub s_overflow: bool,
    /// OAMADDR ($2003).
    pub r_oam_addr: u8,
    /// Last byte written to $2005.
    pub r_scroll: u8,
    /// Loopy `v`: current VRAM address and scroll position.
    pub r_addr: u16,
    /// Loopy `t`: temporary VRAM address.
    pub r_t_addr: u16,
    /// Last byte moved over $2007.
    pub r_data: u8,
    /// Last page written to $4014.
    pub r_oam_dma: u8,
    /// Loopy `w`: true when the next $2005/$2006 write is the second one.
    pub r_writing_lower_addr: bool,
    /// Loopy `x`: fine X scroll, three bits.
    pub r_fine_scroll_x: u16,
    /// PPUDATA read buffer.
    pub r_data_buffer: u8,
}

impl PpuRegister {
    /// `v` and `t` fit in 15 bits and `x` in 3, in every reachable state.
    pub open spec fn wf(&self) -> bool {
        self.r_addr < 0x8000 && self.r_t_addr < 0x8000 && self.r_fine_scroll_x < 8
    }

    /// PPUSTATUS byte: VBlank, sprite-0 hit and sprite overflow in bits
    /// 7, 6 and 5.
    pub open spec fn spec_status_byte(self) -> u8 {
        ((if self.s_vblank { 0x80int } else { 0int }) + (if self.s_sprite_zero { 0x40int } else { 0int })
            + (if self.s_overflow { 0x20int } else { 0int })) as u8
    }

    /// State after a $2002 read: VBlank and `w` cleared, all else kept.
    pub open spec fn spec_read_status(self) -> PpuRegister {
        PpuRegister { s_vblank: false, r_writing_lower_addr: false, ..self }
    }

    /// State after a $2000 write: control stored, nametable-select bits
    /// copied into `t` bits 10-11.
    pub open spec fn spec_set_ctrl_zero(self, v: u8) -> PpuRegister {
        PpuRegister {
            r_ctrl_zero: v,
            r_t_addr: ((self.r_t_addr & 0xF3FF) | (((v & 3) as u16) << 10)) as u16,
            ..self
        }
    }

    /// State after a $2005 write: the first write of a pair sets coarse X
    /// and fine X, the second sets coarse Y and fine Y.
    pub open spec fn spec_set_scroll(self, v: u8) -> PpuRegister {
        if !self.r_writing_lower_addr {
            PpuRegister {
                r_t_addr: ((self.r_t_addr & 0xFFE0) | ((v >> 3) as u16)) as u16,
                r_fine_scroll_x: (v & 0x7) as u16,
                r_writing_lower_addr: true,
                r_scroll: v,
                ..self
            }
        } else {
            PpuRegister {
                r_t_addr: ((((self.r_t_addr & 0x8FFF) | (((v & 0x07) as u16) << 12)) & 0xFC1F)
                    | (((v & 0xF8) as u16) << 2)) as u16,
                r_writing_lower_addr: false,
                r_scroll: v,
                ..self
            }
        }
    }

    /// State after a $2006 write: the first write of a pair sets the high
    /// six bits of `t` (bit 14 cleared), the second sets the low byte and
    /// copies `t` into `v`.
    pub open spec fn spec_set_addr(self, v: u16) -> PpuRegister {
        if !self.r_writing_lower_addr {
            PpuRegister {
                r_t_addr: ((self.r_t_addr & 0x00FF) | ((v & 0x3F) << 8)) as u16,
                r_writing_lower_addr: true,
                ..self
            }
        } else {
            PpuRegister {
                r_t_addr: ((self.r_t_addr & 0xFF00) | (v & 0x00FF)) as u16,
                r_addr: ((self.r_t_addr & 0xFF00) | (v & 0x00FF)) as u16,
                r_writing_lower_addr: false,
                ..self
            }
        }
    }

    /// Step $2007 access adds to `v`: 1 or 32 by PPUCTRL bit 2, modulo
    /// the 15-bit range.
    pub open spec fn spec_incr_amount(self) -> u16 {
        if (self.r_ctrl_zero >> 2) & 0x01 == 0 {
            1u16
        } else {
            32u16
        }
    }

    /// `v` after one $2007 access.
    pub open spec fn spec_incr_addr(self) -> PpuRegister {
        PpuRegister { r_addr: (((self.r_addr + self.spec_incr_amount()) as u16) & 0x7FFF) as u16, ..self }
    }

    /// Value a $2007 read hands back: reads under $3F00 go through the
    /// one-byte buffer, palette reads return at once.
    pub open spec fn spec_read_data_val(self, mem: PpuMemV) -> u8 {
        if (self.r_addr & 0x3FFF) < 0x3F00 {
            self.r_data_buffer
        } else {
            ppumem_read(mem, (self.r_addr & 0x3FFF) as int)
        }
    }

    /// Register state after a $2007 read: the buffer is refilled from the
    /// pre-increment address, then `v` steps.
    pub open spec fn spec_read_data_post(self, mem: PpuMemV) -> PpuRegister {
        PpuRegister {
            r_data: self.spec_read_data_val(mem),
            r_data_buffer: ppumem_read(mem, (self.r_addr & 0x3FFF) as int),
            ..self
        }.spec_incr_addr()
    }

    /// Memory and register state after a $2007 write.
    pub open spec fn spec_write_data_post(self, mem: PpuMemV, v: u8) -> (PpuRegister, PpuMemV) {
        (
            PpuRegister { r_data: v, ..self }.spec_incr_addr(),
            ppumem_write(mem, (self.r_addr & 0x3FFF) as int, v),
        )
    }

    /// The all-zero power-on state.
    pub open spec fn spec_power_on() -> PpuRegister {
        PpuRegister {
            r_ctrl_zero: 0,
            r_ctrl_one: 0,
            s_vblank: false,
            s_sprite_zero: false,
            s_overflow: false,
            r_oam_addr: 0,
            r_scroll: 0,
            r_addr: 0,
            r_t_addr: 0,
            r_data: 0,
            r_oam_dma: 0,
            r_writing_lower_addr: false,
            r_fine_scroll_x: 0,
            r_data_buffer: 0,
        }
    }

    pub fn new() -> (r: PpuRegister)
        ensures
            r.wf(),
            r == (PpuRegister {
                r_ctrl_zero: 0,
                r_ctrl_one: 0,
                s_vblank: false,
                s_sprite_zero: false,
                s_overflow: false,
                r_oam_addr: 0,
                r_scroll: 0,
                r_addr: 0,
                r_t_addr: 0,
                r_data: 0,
                r_oam_dma: 0,
                r_writing_lower_addr: false,
                r_fine_scroll_x: 0,
                r_data_buffer: 0,
            }),
    {
        PpuRegister {
            r_ctrl_zero: 0x00,
            r_ctrl_one: 0x00,
            s_vblank: false,
            s_sprite_zero: false,
            s_overflow: false,
            r_oam_addr: 0x00,
            r_scroll: 0x00,
            r_addr: 0x00,
            r_t_addr: 0x00,
            r_data: 0x00,
            r_oam_dma: 0x00,
            r_writing_lower_addr: false,
            r_fine_scroll_x: 0,
            r_data_buffer: 0,
        }
    }

    // --- PPUCTRL ($2000) bit fields ---

    pub fn get_nametable_address(&self) -> (r: usize)
        ensures
            r == 0x2000 + ((self.r_ctrl_zero & 0x03) as usize) * 0x400,
    {
        0x2000 + ((self.r_ctrl_zero & 0x03) as usize) * 0x400
    }

    pub fn get_incr_value(&self) -> (r: u8)
        ensures
            r as u16 == self.spec_incr_amount(),
    {
        if (self.r_ctrl_zero >> 2) & 0x01 == 0x0 {
            1
        } else {
            32
        }
    }

    pub fn get_sprite_table(&self) -> (r: u8)
        ensures
            r == (self.r_ctrl_zero >> 3) & 0x01,
    {
        (self.r_ctrl_zero >> 3) & 0x01
    }

    pub fn get_background_table(&self) -> (r: u8)
        ensures
            r == (self.r_ctrl_zero >> 4) & 0x01,
    {
        (self.r_ctrl_zero >> 4) & 0x01
    }

    pub fn get_sprite_size(&self) -> (r: u8)
        ensures
            r == (self.r_ctrl_zero >> 5) & 0x01,
    {
        (self.r_ctrl_zero >> 5) & 0x01
    }

    pub fn get_slave_mode(&self) -> (r: u8)
        ensures
            r == (self.r_ctrl_zero >> 6) & 0x01,
    {
        (self.r_ctrl_zero >> 6) & 0x01
    }

    pub fn get_nmi_enable(&self) -> (r: u8)
        ensures
            r == (self.r_ctrl_zero >> 7) & 0x01,
    {
        (self.r_ctrl_zero >> 7) & 0x01
    }

    pub fn get_ctrl_zero(&self) -> (r: u8)
        ensures
            r == self.r_ctrl_zero,
    {
        self.r_ctrl_zero
    }

    // --- PPUMASK ($2001) bit fields ---

    pub fn get_background_visibility(&self) -> (r: u8)
        ensures
            r == (self.r_ctrl_one >> 3) & 0x01,
    {
        (self.r_ctrl_one >> 3) & 0x01
    }

    pub fn get_sprite_visibility(&self) -> (r: u8)
        ensures
            r == (self.r_ctrl_one >> 4) & 0x01,
    {
        (self.r_ctrl_one >> 4) & 0x01
    }

    pub fn get_sprite_clipping(&self) -> (r: u8)
        ensures
            r == (self.r_ctrl_one >> 2) & 0x01,
    {
        (self.r_ctrl_one >> 2) & 0x01
    }

    pub fn get_background_clipping(&self) -> (r: u8)
        ensures
            r == (self.r_ctrl_one >> 1) & 0x01,
    {
        (self.r_ctrl_one >> 1) & 0x01
    }

    pub fn get_ctrl_one(&self) -> (r: u8)
        ensures
            r == self.r_ctrl_one,
    {
        self.r_ctrl_one
    }

    /// True when PPUMASK shows the background or the sprites: the
    /// rendering pipeline runs only then.
    pub fn rendering_enabled(&self) -> (r: bool)
        ensures
            r == self.spec_rendering_enabled(),
    {
        (self.r_ctrl_one >> 3) & 0x01 == 1 || (self.r_ctrl_one >> 4) & 0x01 == 1
    }

    pub open spec fn spec_rendering_enabled(self) -> bool {
        (self.r_ctrl_one >> 3) & 0x01 == 1 || (self.r_ctrl_one >> 4) & 0x01 == 1
    }

    // --- PPUSTATUS ($2002) ---

    pub fn set_vblank(&mut self)
        ensures
            *final(self) == (PpuRegister { s_vblank: true, ..*old(self) }),
    {
        self.s_vblank = true;
    }

    pub fn clear_vblank(&mut self)
        ensures
            *final(self) == (PpuRegister { s_vblank: false, ..*old(self) }),
    {
        self.s_vblank = false;
    }

    pub fn set_spritehit(&mut self)
        ensures
            *final(self) == (PpuRegister { s_sprite_zero: true, ..*old(self) }),
    {
        self.s_sprite_zero = true;
    }

    pub fn clear_spritehit(&mut self)
        ensures
            *final(self) == (PpuRegister { s_sprite_zero: false, ..*old(self) }),
    {
        self.s_sprite_zero = false;
    }

    pub fn clear_overflow(&mut self)
        ensures
            *final(self) == (PpuRegister { s_overflow: false, ..*old(self) }),
    {
        self.s_overflow = false;
    }

    /// $2002 read: hands the pre-read status byte back, then clears the
    /// VBlank bit and the `w` toggle.
    pub fn read_status(&mut self) -> (r: u8)
        ensures
            r == old(self).spec_status_byte(),
            *final(self) == old(self).spec_read_status(),
    {
        let data = self.get_status();
        self.s_vblank = false;
        self.r_writing_lower_addr = false;
        data
    }

    /// Status byte without the read's side effects.
    pub fn get_status(&self) -> (r: u8)
        ensures
            r == self.spec_status_byte(),
    {
        (if self.s_vblank { 0x80u8 } else { 0u8 }) + (if self.s_sprite_zero { 0x40u8 } else { 0u8 })
            + (if self.s_overflow { 0x20u8 } else { 0u8 })
    }

    /// Raw store to the status bits (power-on and frame-start paths).
    pub fn set_status(&mut self, v: u8)
        ensures
            *final(self) == (PpuRegister {
                s_vblank: v & 0x80 != 0,
                s_sprite_zero: v & 0x40 != 0,
                s_overflow: v & 0x20 != 0,
                ..*old(self)
            }),
    {
        self.s_vblank = v & 0x80 != 0;
        self.s_sprite_zero = v & 0x40 != 0;
        self.s_overflow = v & 0x20 != 0;
    }

    // --- OAMADDR / OAMDATA ($2003 / $2004) ---

    pub fn get_oam_addr(&self) -> (r: u8)
        ensures
            r == self.r_oam_addr,
    {
        self.r_oam_addr
    }

    pub fn set_oam_addr(&mut self, v: u8)
        ensures
            *final(self) == (PpuRegister { r_oam_addr: v, ..*old(self) }),
    {
        self.r_oam_addr = v;
    }

    /// $2004 read: the OAM byte under OAMADDR; reads do not increment.
    pub fn read_oam(&self, mem: &PpuMem) -> (r: u8)
        requires
            mem.wf(),
        ensures
            r == mem@.oam[self.r_oam_addr as int],
    {
        mem.spr_mem.oam[self.r_oam_addr as usize]
    }

    // --- scroll and address latches ($2005 / $2006) ---

    pub fn get_scroll(&self) -> (r: u8)
        ensures
            r == self.r_scroll,
    {
        self.r_scroll
    }

    pub fn get_addr(&self) -> (r: u16)
        ensures
            r == self.r_addr,
    {
        self.r_addr
    }

    pub fn get_temp_addr(&self) -> (r: u16)
        ensures
            r == self.r_t_addr,
    {
        self.r_t_addr
    }

    pub fn get_r_fine_scroll_x(&self) -> (r: u16)
        ensures
            r == self.r_fine_scroll_x,
    {
        self.r_fine_scroll_x
    }

    /// $2000 write.
    pub fn set_ctrl_zero(&mut self, v: u8)
        requires
            old(self).wf(),
        ensures
            final(self).wf(),
            *final(self) == old(self).spec_set_ctrl_zero(v),
    {
        proof {
            let t = old(self).r_t_addr;
            let vv = v;
            assert(((t & 0xF3FF) | (((vv & 3) as u16) << 10)) < 0x8000) by (bit_vector)
                requires t < 0x8000;
        }
        self.r_ctrl_zero = v;
        self.r_t_addr = (self.r_t_addr & 0xF3FF) | (((v & 3) as u16) << 10);
    }

    /// $2001 write.
    pub fn set_ctrl_one(&mut self, v: u8)
        ensures
            *final(self) == (PpuRegister { r_ctrl_one: v, ..*old(self) }),
    {
        self.r_ctrl_one = v;
    }

    /// $2005 write.
    pub fn set_scroll(&mut self, v: u8)
        requires
            old(self).wf(),
        ensures
            final(self).wf(),
            *final(self) == old(self).spec_set_scroll(v),
    {
        proof {
            let t = old(self).r_t_addr;
            let vv = v;
            assert(((t & 0xFFE0) | ((vv >> 3) as u16)) < 0x8000) by (bit_vector)
                requires t < 0x8000;
            assert(((((t & 0x8FFF) | (((vv & 0x07) as u16) << 12)) & 0xFC1F)
                | (((vv & 0xF8) as u16) << 2)) < 0x8000) by (bit_vector)
                requires t < 0x8000;
            assert((vv & 0x7) < 8) by (bit_vector);
        }
        if !self.r_writing_lower_addr {
            self.r_t_addr = (self.r_t_addr & 0xFFE0) | ((v >> 3) as u16);
            self.r_fine_scroll_x = (v & 0x7) as u16;
            self.r_writing_lower_addr = true;
        } else {
            let t1 = (self.r_t_addr & 0x8FFF) | (((v & 0x07) as u16) << 12);
            self.r_t_addr = (t1 & 0xFC1F) | (((v & 0xF8) as u16) << 2);
            self.r_writing_lower_addr = false;
        }
        self.r_scroll = v;
    }

    /// $2006 write; only the low byte of `v` is meaningful.
    pub fn set_addr(&mut self, v: u16)
        requires
            old(self).wf(),
        ensures
            final(self).wf(),
            *final(self) == old(self).spec_set_addr(v),
    {
        proof {
            let t = old(self).r_t_addr;
            let vv = v;
            assert(((t & 0x00FF) | ((vv & 0x3F) << 8)) < 0x8000) by (bit_vector);
            assert(((t & 0xFF00) | (vv & 0x00FF)) < 0x8000) by (bit_vector)
                requires t < 0x8000;
        }
        if !self.r_writing_lower_addr {
            self.r_t_addr = (self.r_t_addr & 0x00FF) | ((v & 0x3F) << 8);
            self.r_writing_lower_addr = true;
        } else {
            self.r_t_addr = (self.r_t_addr & 0xFF00) | (v & 0x00FF);
            self.r_addr = self.r_t_addr;
            self.r_writing_lower_addr = false;
        }
    }

    /// Direct store to `v` (the rendering pipeline's own updates).
    pub fn set_addr_plain(&mut self, v: u16)
        requires
            v < 0x8000,
        ensures
            *final(self) == (PpuRegister { r_addr: v, ..*old(self) }),
            final(self).wf() == (old(self).r_t_addr < 0x8000 && old(self).r_fine_scroll_x < 8),
    {
        self.r_addr = v;
    }

    /// Steps `v` by the PPUCTRL-selected amount, inside 15 bits.
    pub fn incr_addr(&mut self)
        requires
            old(self).wf(),
        ensures
            final(self).wf(),
            *final(self) == old(self).spec_incr_addr(),
    {
        let amount = self.get_incr_value() as u16;
        proof {
            let s: u16 = (old(self).r_addr + amount) as u16;
            assert((s & 0x7FFF) < 0x8000) by (bit_vector);
        }
        self.r_addr = (self.r_addr + amount) & 0x7FFF;
    }

    // --- PPUDATA ($2007) ---

    /// $2007 read: buffered under $3F00, immediate for palette; `v` steps
    /// afterwards.
    pub fn read_data(&mut self, mem: &PpuMem) -> (r: u8)
        requires
            old(self).wf(),
            mem.wf(),
        ensures
            final(self).wf(),
            r == old(self).spec_read_data_val(mem@),
            *final(self) == old(self).spec_read_data_post(mem@),
    {
        proof {
            let a = old(self).r_addr;
            assert((a & 0x3FFF) < 0x4000) by (bit_vector);
        }
        let addr = (self.r_addr & 0x3FFF) as usize;
        let raw = mem.peek(addr);
        let result = if addr < 0x3F00 {
            self.r_data_buffer
        } else {
            raw
        };
        self.r_data = result;
        self.r_data_buffer = raw;
        self.incr_addr();
        result
    }

    /// $2007 write at `v`; `v` steps afterwards.
    pub fn write_data(&mut self, v: u8, mem: &mut PpuMem)
        requires
            old(self).wf(),
            old(mem).wf(),
        ensures
            final(self).wf(),
            final(mem).wf(),
            *final(self) == old(self).spec_write_data_post(old(mem)@, v).0,
            final(mem)@ == old(self).spec_write_data_post(old(mem)@, v).1,
    {
        proof {
            let a = old(self).r_addr;
            assert((a & 0x3FFF) < 0x4000) by (bit_vector);
        }
        let addr = (self.r_addr & 0x3FFF) as usize;
        self.r_data = v;
        mem.write(addr, v);
        self.incr_addr();
    }

    // --- OAM DMA ($4014) ---

    pub fn get_oam_dma(&self) -> (r: u8)
        ensures
            r == self.r_oam_dma,
    {
        self.r_oam_dma
    }

    pub fn set_oam_dma(&mut self, v: u8)
        ensures
            *final(self) == (PpuRegister { r_oam_dma: v, ..*old(self) }),
    {
        self.r_oam_dma = v;
    }

    /// OAM DMA: copies 256 bytes of CPU RAM page `v` into OAM, starting
    /// at OAMADDR and wrapping; OAMADDR comes back around to its old
    /// value.
    pub fn write_oam_data(&mut self, v: u8, mem: &mut PpuMem, ram: &Ram)
        requires
            old(self).wf(),
            old(mem).wf(),
            ram.wf(),
        ensures
            final(self).wf(),
            final(mem).wf(),
            *final(self) == (PpuRegister { r_oam_dma: v, ..*old(self) }),
            forall|k: int|
                0 <= k < 256 ==> final(mem)@.oam[dma_dest(old(self).r_oam_addr, k)] == ram_read(
                    ram@,
                    ((v as u16) * 0x100 + k) as u16,
                ),
            final(mem)@.chr == old(mem)@.chr,
            final(mem)@.nt == old(mem)@.nt,
            final(mem)@.palette == old(mem)@.palette,
            final(mem)@.mirroring == old(mem)@.mirroring,
    {
        let base: u16 = (v as u16) * 0x100;
        let mut k: usize = 0;
        while k < 256
            invariant
                self.wf(),
                mem.wf(),
                ram.wf(),
                k <= 256,
                base == (v as u16) * 0x100,
                *self == *old(self),
                forall|j: int|
                    0 <= j < k ==> mem@.oam[dma_dest(old(self).r_oam_addr, j)] == ram_read(
                        ram@,
                        ((v as u16) * 0x100 + j) as u16,
                    ),
                mem@.chr == old(mem)@.chr,
                mem@.nt == old(mem)@.nt,
                mem@.palette == old(mem)@.palette,
                mem@.mirroring == old(mem)@.mirroring,
            decreases 256 - k,
        {
            let src: u16 = base + (k as u16);
            let dst: usize = ((self.r_oam_addr as usize) + k) % 256;
            let value = ram.peek(src);
            proof {
                let a = old(self).r_oam_addr as int;
                lemma_mod256_range(a + k);
                assert forall|j: int| 0 <= j < k implies dma_dest(old(self).r_oam_addr, j)
                    != dma_dest(old(self).r_oam_addr, k as int) by {
                    lemma_mod256_range(a + j);
                    lemma_mod256_range(a + k);
                }
            }
            mem.write_sprite_data(dst, value);
            k = k + 1;
        }
        self.r_oam_dma = v;
    }

}

/// Cell of OAM that copy step `k` of a DMA starting at OAMADDR `a` fills.
pub open spec fn dma_dest(a: u8, k: int) -> int {
    (a + k) % 256
}

/// Modulo 256 of a value under 512, written out.
proof fn lemma_mod256_range(x: int)
    requires
        0 <= x < 512,
    ensures
        x % 256 == (if x < 256 { x } else { x - 256 }),
{
    if x < 256 {
        vstd::arithmetic::div_mod::lemma_small_mod(x as nat, 256nat);
    } else {
        vstd::arithmetic::div_mod::lemma_mod_sub_multiples_vanish(x, 256);
        vstd::arithmetic::div_mod::lemma_small_mod((x - 256) as nat, 256nat);
    }
}

/// Writing an address through the $2006 pair lands the full 14-bit value
/// in `v`, with the toggle back at zero: the high six bits come from the
/// first write, the low eight from the second.
pub proof fn lemma_addr_write_round_trip(r: PpuRegister, hi: u8, lo: u8)
    requires
        r.wf(),
        !r.r_writing_lower_addr,
    ensures
        r.spec_set_addr(hi as u16).spec_set_addr(lo as u16).r_addr == ((hi & 0x3F) as u16) << 8
            | lo as u16,
        !r.spec_set_addr(hi as u16).spec_set_addr(lo as u16).r_writing_lower_addr,
        r.spec_set_addr(hi as u16).spec_set_addr(lo as u16).wf(),
{
    let t = r.r_t_addr;
    let h = hi as u16;
    let l = lo as u16;
    assert(((((t & 0x00FF) | ((h & 0x3F) << 8)) & 0xFF00) | (l & 0x00FF)) == (((h & 0x3F) as u16)
        << 8 | l)) by (bit_vector)
        requires h < 0x100 && l < 0x100;
    assert((((h & 0x3F) as u16) << 8 | l) < 0x8000) by (bit_vector)
        requires h < 0x100 && l < 0x100;
    assert(((t & 0x00FF) | ((h & 0x3F) << 8)) < 0x8000) by (bit_vector);
}

} // verus!
