//! PPU address space: pattern tables (CHR) at $0000-$1FFF, nametable RAM
//! at $2000-$2FFF with cartridge-selected mirroring ($3000-$3EFF mirrors
//! $2000-$2EFF), and palette RAM at $3F00-$3F1F (mirrored through $3FFF);
//! plus the sprite OAM, which the PPU reaches over its own port.

use crate::ppu::palette::pal_index;
use crate::ppu::palette::Palette;
use crate::ppu::sprite::SpriteMem;
use crate::ppu::sprite::OAM_SIZE;
use crate::rom::Mirroring;
use crate::rom::CHR_SIZE;
use vstd::prelude::*;

verus! {

pub const NAMETABLE_SIZE: usize = 0x800;

/// Everything a PPU-bus access can see, as plain sequences.
pub struct PpuMemV {
    pub chr: Seq<u8>,
    pub nt: Seq<u8>,
    pub palette: Seq<u8>,
    pub oam: Seq<u8>,
    pub mirroring: Mirroring,
}

/// Cell of the 2 KiB nametable RAM that PPU address `addr`
/// ($2000-$3EFF) lands on: four logical tables fold onto two physical
/// ones, by row for horizontal mirroring and by column for vertical.
pub open spec fn nt_index(m: Mirroring, addr: int) -> int {
    let a = if addr >= 0x3000 {
        addr - 0x1000
    } else {
        addr
    };
    let table = (a - 0x2000) / 0x400;
    let off = (a - 0x2000) % 0x400;
    let phys = match m {
        Mirroring::Horizontal => table / 2,
        Mirroring::Vertical => table % 2,
    };
    phys * 0x400 + off
}

/// Byte that a PPU-bus read of `addr` (already mirrored into $0000-$3FFF)
/// returns.
pub open spec fn ppumem_read(v: PpuMemV, addr: int) -> u8 {
    if addr < 0x2000 {
        v.chr[addr]
    } else if addr < 0x3F00 {
        v.nt[nt_index(v.mirroring, addr)]
    } else {
        v.palette[pal_index(addr)]
    }
}

/// PPU memory after a PPU-bus write of `val` at `addr`.
pub open spec fn ppumem_write(v: PpuMemV, addr: int, val: u8) -> PpuMemV {
    if addr < 0x2000 {
        PpuMemV { chr: v.chr.update(addr, val), ..v }
    } else if addr < 0x3F00 {
        PpuMemV { nt: v.nt.update(nt_index(v.mirroring, addr), val), ..v }
    } else {
        PpuMemV { palette: v.palette.update(pal_index(addr), val), ..v }
    }
}

pub struct PpuMem {
    /// Pattern tables, loaded from the cartridge's CHR array.
    pub vram: Vec<u8>,
    pub palette: Palette,
    pub nametable: Vec<u8>,
    pub spr_mem: SpriteMem,
    pub mirroring: Mirroring,
}

impl View for PpuMem {
    type V = PpuMemV;

    open spec fn view(&self) -> PpuMemV {
        PpuMemV {
            chr: self.vram@,
            nt: self.nametable@,
            palette: self.palette@,
            oam: self.spr_mem@,
            mirroring: self.mirroring,
        }
    }
}

impl PpuMem {
    pub open spec fn wf(&self) -> bool {
        &&& self.vram@.len() == CHR_SIZE
        &&& self.nametable@.len() == NAMETABLE_SIZE
        &&& self.palette.wf()
        &&& self.spr_mem.wf()
    }

    pub fn new() -> (r: PpuMem)
        ensures
            r.wf(),
            r@.chr == Seq::<u8>::new(CHR_SIZE as nat, |i: int| 0u8),
            r@.nt == Seq::<u8>::new(NAMETABLE_SIZE as nat, |i: int| 0u8),
            r@.palette == Seq::<u8>::new(32, |i: int| 0u8),
            r@.oam == Seq::<u8>::new(OAM_SIZE as nat, |i: int| 0u8),
            r@.mirroring == Mirroring::Horizontal,
    {
        let mut vram: Vec<u8> = Vec::new();
        vram.resize(CHR_SIZE, 0u8);
        let mut nametable: Vec<u8> = Vec::new();
        nametable.resize(NAMETABLE_SIZE, 0u8);
        let r = PpuMem {
            vram,
            palette: Palette::new(),
            nametable,
            spr_mem: SpriteMem::new(),
            mirroring: Mirroring::Horizontal,
        };
        proof {
            assert(r@.chr =~= Seq::<u8>::new(CHR_SIZE as nat, |i: int| 0u8));
            assert(r@.nt =~= Seq::<u8>::new(NAMETABLE_SIZE as nat, |i: int| 0u8));
        }
        r
    }

    /// Exec mirror of `nt_index`.
    fn nt_cell(&self, i: usize) -> (r: usize)
        requires
            0x2000 <= i < 0x3F00,
        ensures
            r == nt_index(self.mirroring, i as int),
            r < NAMETABLE_SIZE,
    {
        let a = if i >= 0x3000 {
            i - 0x1000
        } else {
            i
        };
        let table = (a - 0x2000) / 0x400;
        let off = (a - 0x2000) % 0x400;
        let phys = match self.mirroring {
            Mirroring::Horizontal => table / 2,
            Mirroring::Vertical => table % 2,
        };
        phys * 0x400 + off
    }

    /// PPU-bus read of address `i` ($0000-$3FFF).
    pub fn peek(&self, i: usize) -> (r: u8)
        requires
            self.wf(),
            i < 0x4000,
        ensures
            r == ppumem_read(self@, i as int),
    {
        if i < 0x2000 {
            self.vram[i]
        } else if i < 0x3F00 {
            let idx = self.nt_cell(i);
            self.nametable[idx]
        } else {
            self.palette.peek(i)
        }
    }

    /// PPU-bus write of `value` at address `i` ($0000-$3FFF); hands the
    /// written byte back.
    pub fn write(&mut self, i: usize, value: u8) -> (r: u8)
        requires
            old(self).wf(),
            i < 0x4000,
        ensures
            final(self).wf(),
            final(self)@ == ppumem_write(old(self)@, i as int, value),
            r == value,
    {
        if i < 0x2000 {
            self.vram[i] = value;
        } else if i < 0x3F00 {
            let idx = self.nt_cell(i);
            self.nametable[idx] = value;
        } else {
            self.palette.write(i, value);
        }
        value
    }

    /// Stores one byte of OAM.
    pub fn write_sprite_data(&mut self, i: usize, value: u8)
        requires
            old(self).wf(),
            i < OAM_SIZE,
        ensures
            final(self).wf(),
            final(self)@.oam == old(self)@.oam.update(i as int, value),
            final(self)@.chr == old(self)@.chr,
            final(self)@.nt == old(self)@.nt,
            final(self)@.palette == old(self)@.palette,
            final(self)@.mirroring == old(self)@.mirroring,
    {
        self.spr_mem.write_data(i, value);
    }

    /// Copies a cartridge's CHR array into the pattern tables.
    pub fn set_cram(&mut self, value: &Vec<u8>)
        requires
            old(self).wf(),
            value@.len() <= CHR_SIZE,
        ensures
            final(self).wf(),
            forall|i: int| 0 <= i < value@.len() ==> final(self)@.chr[i] == value@[i],
            forall|i: int| value@.len() <= i < CHR_SIZE ==> final(self)@.chr[i] == old(self)@.chr[i],
            final(self)@.nt == old(self)@.nt,
            final(self)@.palette == old(self)@.palette,
            final(self)@.oam == old(self)@.oam,
            final(self)@.mirroring == old(self)@.mirroring,
    {
        let mut i: usize = 0;
        while i < value.len()
            invariant
                self.wf(),
                i <= value@.len(),
                value@.len() <= CHR_SIZE,
                forall|j: int| 0 <= j < i ==> self@.chr[j] == value@[j],
                forall|j: int| i <= j < CHR_SIZE ==> self@.chr[j] == old(self)@.chr[j],
                self@.nt == old(self)@.nt,
                self@.palette == old(self)@.palette,
                self@.oam == old(self)@.oam,
                self@.mirroring == old(self)@.mirroring,
            decreases value@.len() - i,
        {
            self.vram[i] = value[i];
            i = i + 1;
        }
    }

    /// Adopts the cartridge's nametable arrangement.
    pub fn set_mirroring(&mut self, m: Mirroring)
        requires
            old(self).wf(),
        ensures
            final(self).wf(),
            final(self)@.mirroring == m,
            final(self)@.chr == old(self)@.chr,
            final(self)@.nt == old(self)@.nt,
            final(self)@.palette == old(self)@.palette,
            final(self)@.oam == old(self)@.oam,
    {
        self.mirroring = m;
    }
}

} // verus!
