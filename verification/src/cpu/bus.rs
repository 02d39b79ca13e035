//! CPU-side address decoder: RAM with its mirrors, the PPU registers,
//! the controller ports, the APU stubs, optional PRG RAM and the
//! cartridge PRG space, plus the OAM DMA port at $4014.
//!
//! | range         | target                                    |
//! |---------------|-------------------------------------------|
//! | $0000-$1FFF   | 2 KiB RAM, mirrored every $0800           |
//! | $2000-$3FFF   | PPU registers, mirrored every 8           |
//! | $4014         | OAM DMA trigger (write only)              |
//! | $4016 / $4017 | controller 1 / controller 2 stub          |
//! | $4000-$4015   | APU stubs: reads 0, writes ignored        |
//! | $6000-$7FFF   | PRG RAM stub, folded onto work RAM        |
//! | $8000-$FFFF   | cartridge PRG; writes ignored             |

use crate::controller::Controller;
use crate::cpu::memory::ram_index;
use crate::cpu::memory::ram_read;
use crate::cpu::memory::ram_write;
use crate::cpu::memory::Ram;
use crate::ppu::mem::PpuMemV;
use crate::ppu::register::dma_dest;
use crate::ppu::register::PpuRegister;
use crate::ppu::Ppu;
use crate::rom::cart_prg_read;
use crate::rom::Cartbridge;
use vstd::prelude::*;

verus! {

/// Everything a bus transaction can read or change, as plain values.
pub struct BusV {
    pub ram: Seq<u8>,
    pub prg: Seq<u8>,
    pub reg: PpuRegister,
    pub mem: PpuMemV,
    pub updated: bool,
    pub nmi_latch: bool,
    pub ctl: Controller,
    pub dma_pending: bool,
}

pub struct CpuBus {
    pub ram: Ram,
    pub rom: Cartbridge,
    pub ppu: Ppu,
    pub controller: Controller,
    /// Set by a $4014 write; the CPU turns it into the DMA stall.
    pub dma_pending: bool,
}

impl View for CpuBus {
    type V = BusV;

    open spec fn view(&self) -> BusV {
        BusV {
            ram: self.ram@,
            prg: self.rom.program@,
            reg: self.ppu.register,
            mem: self.ppu.mem@,
            updated: self.ppu.updated,
            nmi_latch: self.ppu.nmi_latch,
            ctl: self.controller,
            dma_pending: self.dma_pending,
        }
    }
}

/// Byte that a CPU read of `addr` returns.
pub open spec fn bus_read_val(b: BusV, addr: u16) -> u8 {
    if addr < 0x2000 {
        ram_read(b.ram, addr)
    } else if addr < 0x4000 {
        let r = addr & 7;
        if r == 2 {
            b.reg.spec_status_byte()
        } else if r == 4 {
            b.mem.oam[b.reg.r_oam_addr as int]
        } else if r == 7 {
            b.reg.spec_read_data_val(b.mem)
        } else {
            0u8
        }
    } else if addr == 0x4016 {
        b.ctl.spec_read_val()
    } else if addr == 0x4017 {
        1u8
    } else if addr < 0x6000 {
        0u8
    } else if addr < 0x8000 {
        ram_read(b.ram, (addr - 0x6000) as u16)
    } else {
        cart_prg_read(b.prg, addr)
    }
}

/// Bus state after a CPU read of `addr`: reads of $2002 and $2007 move
/// the PPU's latches, a $4016 read shifts the controller, everything
/// else is untouched.
pub open spec fn bus_read_post(b: BusV, addr: u16) -> BusV {
    if 0x2000 <= addr < 0x4000 {
        let r = addr & 7;
        if r == 2 {
            BusV { reg: b.reg.spec_read_status(), ..b }
        } else if r == 7 {
            BusV { reg: b.reg.spec_read_data_post(b.mem), ..b }
        } else {
            b
        }
    } else if addr == 0x4016 {
        BusV { ctl: b.ctl.spec_read_post(), ..b }
    } else {
        b
    }
}

/// OAM contents after a DMA from RAM page `v`, starting at OAMADDR `a`.
pub open spec fn dma_oam(ram: Seq<u8>, v: u8, a: u8) -> Seq<u8> {
    Seq::new(256, |d: int| ram_read(ram, ((v as u16) * 0x100 + ((d - a) % 256)) as u16))
}

/// Bus state after a CPU write of `v` at `addr`.
pub open spec fn bus_write_post(b: BusV, addr: u16, v: u8) -> BusV {
    if addr < 0x2000 {
        BusV { ram: ram_write(b.ram, addr, v), ..b }
    } else if addr < 0x4000 {
        let r = addr & 7;
        let nmi = b.nmi_latch || (r == 0 && b.reg.s_vblank && (b.reg.r_ctrl_zero >> 7) & 0x01 == 0
            && (v >> 7) & 0x01 == 1);
        if r == 0 {
            BusV { reg: b.reg.spec_set_ctrl_zero(v), updated: true, nmi_latch: nmi, ..b }
        } else if r == 1 {
            BusV { reg: PpuRegister { r_ctrl_one: v, ..b.reg }, updated: true, ..b }
        } else if r == 3 {
            BusV { reg: PpuRegister { r_oam_addr: v, ..b.reg }, updated: true, ..b }
        } else if r == 4 {
            BusV {
                reg: PpuRegister {
                    r_oam_addr: vstd::wrapping::u8_specs::wrapping_add(b.reg.r_oam_addr, 1),
                    ..b.reg
                },
                mem: PpuMemV { oam: b.mem.oam.update(b.reg.r_oam_addr as int, v), ..b.mem },
                updated: true,
                ..b
            }
        } else if r == 5 {
            BusV { reg: b.reg.spec_set_scroll(v), updated: true, ..b }
        } else if r == 6 {
            BusV { reg: b.reg.spec_set_addr(v as u16), updated: true, ..b }
        } else if r == 7 {
            BusV {
                reg: b.reg.spec_write_data_post(b.mem, v).0,
                mem: b.reg.spec_write_data_post(b.mem, v).1,
                updated: true,
                ..b
            }
        } else {
            BusV { updated: true, ..b }
        }
    } else if addr == 0x4014 {
        BusV {
            reg: PpuRegister { r_oam_dma: v, ..b.reg },
            mem: PpuMemV { oam: dma_oam(b.ram, v, b.reg.r_oam_addr), ..b.mem },
            updated: true,
            dma_pending: true,
            ..b
        }
    } else if addr == 0x4016 || addr == 0x4017 {
        BusV { ctl: b.ctl.spec_write(v), ..b }
    } else if 0x6000 <= addr < 0x8000 {
        BusV { ram: ram_write(b.ram, (addr - 0x6000) as u16, v), ..b }
    } else {
        b
    }
}

/// What no bus transaction touches: the PPU's frame position, pipeline
/// latches and tileset, and the cartridge's bytes beside PRG.
pub open spec fn bus_frame(a: CpuBus, b: CpuBus) -> bool {
    &&& b.ppu.dot == a.ppu.dot
    &&& b.ppu.line == a.ppu.line
    &&& b.ppu.background == a.ppu.background
    &&& b.ppu.tileset@ == a.ppu.tileset@
    &&& b.ppu.oam_addr == a.ppu.oam_addr
    &&& b.rom.character@ == a.rom.character@
    &&& b.rom.mapper == a.rom.mapper
    &&& b.rom.mirroring == a.rom.mirroring
    &&& b.rom.size == a.rom.size
    &&& b.rom.offset == a.rom.offset
}

impl CpuBus {
    pub open spec fn wf(&self) -> bool {
        &&& self.ram.wf()
        &&& self.rom.wf()
        &&& self.ppu.wf()
    }

    pub fn new(ram: Ram, rom: Cartbridge, ppu: Ppu, controller: Controller) -> (r: CpuBus)
        ensures
            r.ram == ram,
            r.rom == rom,
            r.ppu == ppu,
            r.controller == controller,
            !r.dma_pending,
    {
        CpuBus { ram, rom, ppu, controller, dma_pending: false }
    }

    /// CPU read of `addr`, routed by the table above; side-effecting
    /// reads reach the owning component.
    pub fn peek(&mut self, addr: u16) -> (r: u8)
        requires
            old(self).wf(),
        ensures
            final(self).wf(),
            r == bus_read_val(old(self)@, addr),
            final(self)@ == bus_read_post(old(self)@, addr),
            bus_frame(*old(self), *final(self)),
    {
        if addr < 0x2000 {
            self.ram.peek(addr)
        } else if addr < 0x4000 {
            self.ppu.peek(addr)
        } else if addr == 0x4016 {
            self.controller.read()
        } else if addr == 0x4017 {
            1
        } else if addr < 0x6000 {
            0
        } else if addr < 0x8000 {
            self.ram.peek(addr - 0x6000)
        } else {
            self.rom.prg_read(addr)
        }
    }

    /// CPU write of `v` at `addr`; a $4014 write runs the OAM DMA and
    /// leaves the stall pending for the CPU. Hands the written byte
    /// back.
    pub fn write(&mut self, addr: u16, v: u8) -> (r: u8)
        requires
            old(self).wf(),
        ensures
            final(self).wf(),
            r == v,
            final(self)@ == bus_write_post(old(self)@, addr, v),
            bus_frame(*old(self), *final(self)),
    {
        if addr < 0x2000 {
            self.ram.write(addr, v);
        } else if addr < 0x4000 {
            self.ppu.write(addr, v);
        } else if addr == 0x4014 {
            let ghost a = self.ppu.register.r_oam_addr;
            self.ppu.write_dma(v, &self.ram);
            self.dma_pending = true;
            proof {
                assert forall|d: int| 0 <= d < 256 implies self.ppu.mem@.oam[d] == dma_oam(
                    old(self)@.ram,
                    v,
                    a,
                )[d] by {
                    lemma_dma_cell(a, d);
                }
                assert(self.ppu.mem@.oam =~= dma_oam(old(self)@.ram, v, a));
            }
        } else if addr == 0x4016 || addr == 0x4017 {
            self.controller.write(v);
        } else if addr >= 0x6000 && addr < 0x8000 {
            self.ram.write(addr - 0x6000, v);
        }
        v
    }

    /// Takes the pending DMA flag, once per instruction.
    pub fn take_dma_pending(&mut self) -> (r: bool)
        ensures
            r == old(self).dma_pending,
            *final(self) == (CpuBus { dma_pending: false, ..*old(self) }),
    {
        let r = self.dma_pending;
        self.dma_pending = false;
        r
    }
}

/// Copy step `(d - a) % 256` of a DMA starting at `a` lands on cell `d`.
proof fn lemma_dma_cell(a: u8, d: int)
    requires
        0 <= d < 256,
    ensures
        0 <= (d - a) % 256 < 256,
        dma_dest(a, (d - a) % 256) == d,
{
    let k = (d - a) % 256;
    if d >= a {
        vstd::arithmetic::div_mod::lemma_small_mod((d - a) as nat, 256nat);
        assert(k == d - a);
        vstd::arithmetic::div_mod::lemma_small_mod(d as nat, 256nat);
    } else {
        vstd::arithmetic::div_mod::lemma_mod_sub_multiples_vanish(d - a + 256, 256);
        vstd::arithmetic::div_mod::lemma_small_mod((d - a + 256) as nat, 256nat);
        assert(k == d - a + 256);
        vstd::arithmetic::div_mod::lemma_mod_sub_multiples_vanish(d + 256, 256);
        vstd::arithmetic::div_mod::lemma_small_mod(d as nat, 256nat);
    }
}

} // verus!
