//! 6502 core (2A03, no decimal mode): fetch, decode through the static
//! opcode table, execute with exact flag semantics, and serve RESET and
//! NMI.

pub mod bus;
pub mod memory;
pub mod opcode;
pub mod register;

use crate::cpu::bus::bus_frame;
use crate::cpu::bus::bus_read_post;
use crate::cpu::bus::bus_read_val;
use crate::cpu::bus::bus_write_post;
use crate::cpu::bus::BusV;
use crate::cpu::bus::CpuBus;
use crate::cpu::opcode::opcode_lookup;
use crate::cpu::opcode::spec_opcode;
use crate::cpu::opcode::Addressing;
use crate::cpu::opcode::Instruction;
use crate::cpu::opcode::Opcode;
use crate::cpu::memory::ram_index;
use crate::cpu::memory::ram_read;
use crate::cpu::memory::ram_write;
use crate::cpu::memory::RAM_SIZE;
use crate::cpu::register::flags_byte;
use crate::cpu::register::stack_addr;
use crate::cpu::register::Register;
use crate::cpu::register::StatusFlags;
use crate::Cycle;
use vstd::prelude::*;

verus! {

#[derive(Clone, Copy, PartialEq, Eq, Structural, Debug)]
pub enum EmulationStatus {
    PROCESSING,
    ERROR,
    BREAK,
    RESET,
}

#[derive(Clone, Copy, PartialEq, Eq, Structural, Debug)]
pub enum CPUInterrupts {
    INTERRUPTNMI,
    INTERRUPTNONE,
}

pub struct Cpu {
    pub register: Register,
    /// Cycles beyond the opcode's base count for the current instruction.
    pub extra_cycle: Cycle,
    pub interrupt: CPUInterrupts,
    /// Whether the last indexed operand fetch crossed a page.
    pub page_crossed: bool,
    /// Total cycles consumed since power-on.
    pub cycles: Cycle,
}

pub open spec fn w16_add(x: u16, y: u16) -> u16 {
    vstd::wrapping::u16_specs::wrapping_add(x, y)
}

pub open spec fn w16_sub(x: u16, y: u16) -> u16 {
    vstd::wrapping::u16_specs::wrapping_sub(x, y)
}

pub open spec fn w8_add(x: u8, y: u8) -> u8 {
    vstd::wrapping::u8_specs::wrapping_add(x, y)
}

pub open spec fn w8_sub(x: u8, y: u8) -> u8 {
    vstd::wrapping::u8_specs::wrapping_sub(x, y)
}

/// `reg` with PC stepped by `n`, wrapping.
pub open spec fn reg_pc_add(reg: Register, n: u16) -> Register {
    Register { r_pc: w16_add(reg.r_pc, n), ..reg }
}

/// What one addressing-mode fetch produces: the operand, the register
/// file and bus after the fetch, and whether an indexed fetch crossed a
/// page boundary.
pub struct FetchOut {
    pub val: u16,
    pub reg: Register,
    pub bus: BusV,
    pub crossed: bool,
}

/// One immediate byte at PC.
pub open spec fn spec_fetch(reg: Register, bus: BusV) -> FetchOut {
    FetchOut {
        val: bus_read_val(bus, reg.r_pc) as u16,
        reg: reg_pc_add(reg, 1),
        bus: bus_read_post(bus, reg.r_pc),
        crossed: false,
    }
}

/// Two bytes at PC, low byte first.
pub open spec fn spec_fetch_word(reg: Register, bus: BusV) -> FetchOut {
    let lo = bus_read_val(bus, reg.r_pc);
    let b1 = bus_read_post(bus, reg.r_pc);
    let hi = bus_read_val(b1, w16_add(reg.r_pc, 1));
    let b2 = bus_read_post(b1, w16_add(reg.r_pc, 1));
    FetchOut {
        val: (((hi as u16) << 8) | (lo as u16)) as u16,
        reg: reg_pc_add(reg, 2),
        bus: b2,
        crossed: false,
    }
}

/// Zero-page address indexed by `idx`, wrapping inside page zero.
pub open spec fn spec_fetch_zeropage(reg: Register, bus: BusV, idx: u8) -> FetchOut {
    let f = spec_fetch(reg, bus);
    FetchOut { val: w8_add(f.val as u8, idx) as u16, reg: f.reg, bus: f.bus, crossed: false }
}

/// Absolute address indexed by `idx`; notes the page crossing.
pub open spec fn spec_fetch_absolute_indexed(reg: Register, bus: BusV, idx: u8) -> FetchOut {
    let f = spec_fetch_word(reg, bus);
    let res = w16_add(f.val, idx as u16);
    FetchOut { val: res, reg: f.reg, bus: f.bus, crossed: (f.val & 0xFF00) != (res & 0xFF00) }
}

/// Branch target: PC after the operand plus the signed offset.
pub open spec fn spec_fetch_relative(reg: Register, bus: BusV) -> FetchOut {
    let f = spec_fetch(reg, bus);
    let val = if f.val < 0x80 {
        w16_add(f.reg.r_pc, f.val)
    } else {
        w16_sub(w16_add(f.reg.r_pc, f.val), 0x100)
    };
    FetchOut { val: val, reg: f.reg, bus: f.bus, crossed: false }
}

/// JMP (addr): a 16-bit pointer read with the 6502 page-wrap bug on its
/// low byte.
pub open spec fn spec_fetch_indirect_absolute(reg: Register, bus: BusV) -> FetchOut {
    let f = spec_fetch_word(reg, bus);
    let addr = f.val;
    let upper_addr = ((addr & 0xFF00) | ((((addr & 0xFF) + 1) as u16) & 0xFF)) as u16;
    let upper = bus_read_val(f.bus, upper_addr);
    let b3 = bus_read_post(f.bus, upper_addr);
    let lo = bus_read_val(b3, addr);
    let b4 = bus_read_post(b3, addr);
    FetchOut {
        val: ((lo as u16) + ((upper as u16) << 8)) as u16,
        reg: f.reg,
        bus: b4,
        crossed: false,
    }
}

/// ($zp,X): pointer at the X-indexed zero-page cell.
pub open spec fn spec_fetch_indexed_indirect(reg: Register, bus: BusV) -> FetchOut {
    let f = spec_fetch(reg, bus);
    let zp = w8_add(f.val as u8, reg.r_x) as u16;
    let lo = bus_read_val(f.bus, zp);
    let b2 = bus_read_post(f.bus, zp);
    let hi = bus_read_val(b2, (w16_add(zp, 1) & 0xFF) as u16);
    let b3 = bus_read_post(b2, (w16_add(zp, 1) & 0xFF) as u16);
    FetchOut {
        val: ((((lo as u16) + ((hi as u16) << 8)) as u16) & 0xFFFF) as u16,
        reg: f.reg,
        bus: b3,
        crossed: false,
    }
}

/// ($zp),Y: pointer at the zero-page cell, then Y added; notes the page
/// crossing.
pub open spec fn spec_fetch_indirect_indexed(reg: Register, bus: BusV) -> FetchOut {
    let f = spec_fetch(reg, bus);
    let addr = f.val;
    let lo = bus_read_val(f.bus, addr);
    let b2 = bus_read_post(f.bus, addr);
    let hi = bus_read_val(b2, (((addr + 1) as u16) & 0x00FF) as u16);
    let b3 = bus_read_post(b2, (((addr + 1) as u16) & 0x00FF) as u16);
    let base = ((lo as u16) + (hi as u16) * 0x100) as u16;
    let res = w16_add(base, reg.r_y as u16);
    FetchOut { val: res, reg: f.reg, bus: b3, crossed: (base & 0xFF00) != (res & 0xFF00) }
}

/// Operand decode for one addressing mode, starting at PC.
pub open spec fn spec_fetch_operand(mode: Addressing, reg: Register, bus: BusV) -> FetchOut {
    match mode {
        Addressing::Accumulator => FetchOut { val: 0, reg: reg, bus: bus, crossed: false },
        Addressing::Implied => FetchOut { val: 0, reg: reg, bus: bus, crossed: false },
        Addressing::Immediate => spec_fetch(reg, bus),
        Addressing::ZeroPage => spec_fetch(reg, bus),
        Addressing::ZeroPageX => spec_fetch_zeropage(reg, bus, reg.r_x),
        Addressing::ZeroPageY => spec_fetch_zeropage(reg, bus, reg.r_y),
        Addressing::Absolute => spec_fetch_word(reg, bus),
        Addressing::AbsoluteX => spec_fetch_absolute_indexed(reg, bus, reg.r_x),
        Addressing::AbsoluteY => spec_fetch_absolute_indexed(reg, bus, reg.r_y),
        Addressing::Relative => spec_fetch_relative(reg, bus),
        Addressing::IndirectAbsolute => spec_fetch_indirect_absolute(reg, bus),
        Addressing::IndexedIndirect => spec_fetch_indexed_indirect(reg, bus),
        Addressing::IndirectIndexed => spec_fetch_indirect_indexed(reg, bus),
    }
}

/// Cpu fields no single instruction touches.
pub open spec fn cpu_frame(a: Cpu, b: Cpu) -> bool {
    &&& b.interrupt == a.interrupt
    &&& b.cycles == a.cycles
}

impl Cpu {
    /// Bit 5 of the status byte reads as one in every reachable state,
    /// so a pushed status byte always carries it.
    pub open spec fn wf(&self) -> bool {
        self.register.f_unused
    }

    pub fn new() -> (r: Cpu)
        ensures
            r.wf(),
            r.register.r_a == 0 && r.register.r_x == 0 && r.register.r_y == 0,
            r.register.r_sp == 0xff,
            r.register.r_pc == 0x8000,
            r.extra_cycle == 0,
            r.interrupt == CPUInterrupts::INTERRUPTNONE,
            !r.page_crossed,
            r.cycles == 0,
    {
        Cpu {
            register: Register::new(),
            extra_cycle: 0,
            interrupt: CPUInterrupts::INTERRUPTNONE,
            page_crossed: false,
            cycles: 0,
        }
    }

    /// Latches an NMI for service before the next instruction.
    pub fn trigger_nmi(&mut self)
        ensures
            *final(self) == (Cpu { interrupt: CPUInterrupts::INTERRUPTNMI, ..*old(self) }),
    {
        self.interrupt = CPUInterrupts::INTERRUPTNMI;
    }

    /// RESET: SP to $FD, status to $24 (interrupt-disable and bit 5),
    /// PC from the vector at $FFFC/$FFFD; consumes 7 cycles.
    pub fn reset(&mut self, bus: &mut CpuBus) -> (r: Cycle)
        requires
            old(bus).wf(),
            old(self).cycles + 7 <= u64::MAX,
        ensures
            final(self).wf(),
            final(bus).wf(),
            final(bus)@ == old(bus)@,
            bus_frame(*old(bus), *final(bus)),
            r == 7,
            final(self).register.r_sp == 0xFD,
            flags_byte(final(self).register) == 0x24,
            final(self).register.r_pc == ((bus_read_val(old(bus)@, 0xFFFD) as u16) << 8) | (
            bus_read_val(old(bus)@, 0xFFFC) as u16),
            final(self).register.r_a == old(self).register.r_a,
            final(self).register.r_x == old(self).register.r_x,
            final(self).register.r_y == old(self).register.r_y,
            final(self).cycles == old(self).cycles + 7,
            final(self).interrupt == old(self).interrupt,
    {
        let lo = bus.peek(0xFFFC);
        let hi = bus.peek(0xFFFD);
        let pc = ((hi as u16) << 8) | (lo as u16);
        self.register.set_sp(0xFD);
        self.register.set_sr(0x24);
        proof {
            assert((0x24u8 & 0x01) == 0 && (0x24u8 & 0x02) == 0 && (0x24u8 & 0x04) != 0 && (
            0x24u8 & 0x08) == 0 && (0x24u8 & 0x10) == 0 && (0x24u8 & 0x20) != 0 && (0x24u8
                & 0x40) == 0 && (0x24u8 & 0x80) == 0) by (bit_vector);
        }
        self.register.set_pc(pc);
        self.cycles = self.cycles + 7;
        7
    }

    /// One immediate byte at PC.
    fn fetch(&mut self, bus: &mut CpuBus) -> (r: u16)
        requires
            old(bus).wf(),
        ensures
            final(bus).wf(),
            bus_frame(*old(bus), *final(bus)),
            ({
                let f = spec_fetch(old(self).register, old(bus)@);
                r == f.val && final(self).register == f.reg && final(bus)@ == f.bus
            }),
            final(self).extra_cycle == old(self).extra_cycle,
            final(self).page_crossed == old(self).page_crossed,
            cpu_frame(*old(self), *final(self)),
            final(self).wf() == old(self).wf(),
    {
        let pc = self.register.get_pc();
        let value = bus.peek(pc) as u16;
        self.register.incr_pc();
        value
    }

    /// Two bytes at PC, assembled low byte first.
    fn fetch_word(&mut self, bus: &mut CpuBus) -> (r: u16)
        requires
            old(bus).wf(),
        ensures
            final(bus).wf(),
            bus_frame(*old(bus), *final(bus)),
            ({
                let f = spec_fetch_word(old(self).register, old(bus)@);
                r == f.val && final(self).register == f.reg && final(bus)@ == f.bus
            }),
            final(self).extra_cycle == old(self).extra_cycle,
            final(self).page_crossed == old(self).page_crossed,
            cpu_frame(*old(self), *final(self)),
            final(self).wf() == old(self).wf(),
    {
        let lo = self.fetch(bus);
        let hi = self.fetch(bus);
        (hi << 8) | lo
    }

    fn fetch_zeropage_x(&mut self, bus: &mut CpuBus) -> (r: u16)
        requires
            old(bus).wf(),
        ensures
            final(bus).wf(),
            bus_frame(*old(bus), *final(bus)),
            ({
                let f = spec_fetch_zeropage(old(self).register, old(bus)@, old(self).register.r_x);
                r == f.val && final(self).register == f.reg && final(bus)@ == f.bus
            }),
            final(self).extra_cycle == old(self).extra_cycle,
            final(self).page_crossed == old(self).page_crossed,
            cpu_frame(*old(self), *final(self)),
            final(self).wf() == old(self).wf(),
    {
        let value = self.fetch(bus);
        (value as u8).wrapping_add(self.register.get_x()) as u16
    }

    fn fetch_zeropage_y(&mut self, bus: &mut CpuBus) -> (r: u16)
        requires
            old(bus).wf(),
        ensures
            final(bus).wf(),
            bus_frame(*old(bus), *final(bus)),
            ({
                let f = spec_fetch_zeropage(old(self).register, old(bus)@, old(self).register.r_y);
                r == f.val && final(self).register == f.reg && final(bus)@ == f.bus
            }),
            final(self).extra_cycle == old(self).extra_cycle,
            final(self).page_crossed == old(self).page_crossed,
            cpu_frame(*old(self), *final(self)),
            final(self).wf() == old(self).wf(),
    {
        let value = self.fetch(bus);
        (value as u8).wrapping_add(self.register.get_y()) as u16
    }

    fn fetch_absolute_x(&mut self, bus: &mut CpuBus) -> (r: u16)
        requires
            old(bus).wf(),
        ensures
            final(bus).wf(),
            bus_frame(*old(bus), *final(bus)),
            ({
                let f = spec_fetch_absolute_indexed(
                    old(self).register,
                    old(bus)@,
                    old(self).register.r_x,
                );
                r == f.val && final(self).register == f.reg && final(bus)@ == f.bus && final(self).page_crossed == f.crossed
            }),
            final(self).extra_cycle == old(self).extra_cycle,
            cpu_frame(*old(self), *final(self)),
            final(self).wf() == old(self).wf(),
    {
        let addr = self.fetch_word(bus);
        let res = addr.wrapping_add(self.register.get_x() as u16);
        self.page_crossed = addr & 0xFF00 != res & 0xFF00;
        res
    }

    fn fetch_absolute_y(&mut self, bus: &mut CpuBus) -> (r: u16)
        requires
            old(bus).wf(),
        ensures
            final(bus).wf(),
            bus_frame(*old(bus), *final(bus)),
            ({
                let f = spec_fetch_absolute_indexed(
                    old(self).register,
                    old(bus)@,
                    old(self).register.r_y,
                );
                r == f.val && final(self).register == f.reg && final(bus)@ == f.bus && final(self).page_crossed == f.crossed
            }),
            final(self).extra_cycle == old(self).extra_cycle,
            cpu_frame(*old(self), *final(self)),
            final(self).wf() == old(self).wf(),
    {
        let addr = self.fetch_word(bus);
        let res = addr.wrapping_add(self.register.get_y() as u16);
        self.page_crossed = addr & 0xFF00 != res & 0xFF00;
        res
    }

    fn fetch_relative_address(&mut self, bus: &mut CpuBus) -> (r: u16)
        requires
            old(bus).wf(),
        ensures
            final(bus).wf(),
            bus_frame(*old(bus), *final(bus)),
            ({
                let f = spec_fetch_relative(old(self).register, old(bus)@);
                r == f.val && final(self).register == f.reg && final(bus)@ == f.bus
            }),
            final(self).extra_cycle == old(self).extra_cycle,
            final(self).page_crossed == old(self).page_crossed,
            cpu_frame(*old(self), *final(self)),
            final(self).wf() == old(self).wf(),
    {
        let value = self.fetch(bus);
        if value < 0x80 {
            self.register.get_pc().wrapping_add(value)
        } else {
            self.register.get_pc().wrapping_add(value).wrapping_sub(0x100)
        }
    }

    fn fetch_indirect_absolute(&mut self, bus: &mut CpuBus) -> (r: u16)
        requires
            old(bus).wf(),
        ensures
            final(bus).wf(),
            bus_frame(*old(bus), *final(bus)),
            ({
                let f = spec_fetch_indirect_absolute(old(self).register, old(bus)@);
                r == f.val && final(self).register == f.reg && final(bus)@ == f.bus
            }),
            final(self).extra_cycle == old(self).extra_cycle,
            final(self).page_crossed == old(self).page_crossed,
            cpu_frame(*old(self), *final(self)),
            final(self).wf() == old(self).wf(),
    {
        let addr = self.fetch_word(bus);
        proof {
            let a = addr;
            assert((a & 0xFF) < 0x100) by (bit_vector);
        }
        let upper = bus.peek((addr & 0xFF00) | (((addr & 0xFF) + 1) & 0xFF)) as u16;
        let lo = bus.peek(addr) as u16;
        proof {
            let u = upper;
            assert(u < 0x100 ==> (u << 8) <= 0xFF00) by (bit_vector);
        }
        lo + (upper << 8)
    }

    fn fetch_indexed_indirect(&mut self, bus: &mut CpuBus) -> (r: u16)
        requires
            old(bus).wf(),
        ensures
            final(bus).wf(),
            bus_frame(*old(bus), *final(bus)),
            ({
                let f = spec_fetch_indexed_indirect(old(self).register, old(bus)@);
                r == f.val && final(self).register == f.reg && final(bus)@ == f.bus
            }),
            final(self).extra_cycle == old(self).extra_cycle,
            final(self).page_crossed == old(self).page_crossed,
            cpu_frame(*old(self), *final(self)),
            final(self).wf() == old(self).wf(),
    {
        let value = self.fetch(bus);
        let addr = (value as u8).wrapping_add(self.register.get_x()) as u16;
        let lo = bus.peek(addr) as u16;
        let hi = bus.peek(addr.wrapping_add(1) & 0xFF) as u16;
        proof {
            let h = hi;
            assert(h < 0x100 ==> (h << 8) <= 0xFF00) by (bit_vector);
        }
        (lo + (hi << 8)) & 0xFFFF
    }

    fn fetch_indirect_indexed(&mut self, bus: &mut CpuBus) -> (r: u16)
        requires
            old(bus).wf(),
        ensures
            final(bus).wf(),
            bus_frame(*old(bus), *final(bus)),
            ({
                let f = spec_fetch_indirect_indexed(old(self).register, old(bus)@);
                r == f.val && final(self).register == f.reg && final(bus)@ == f.bus && final(self).page_crossed == f.crossed
            }),
            final(self).extra_cycle == old(self).extra_cycle,
            cpu_frame(*old(self), *final(self)),
            final(self).wf() == old(self).wf(),
    {
        let addr = self.fetch(bus);
        let lo = bus.peek(addr) as u16;
        let hi = bus.peek((addr + 1) & 0x00FF) as u16;
        let base = lo + hi * 0x100;
        let res = base.wrapping_add(self.register.get_y() as u16);
        self.page_crossed = base & 0xFF00 != res & 0xFF00;
        res
    }

    /// Decodes the operand for `opcode`'s addressing mode, stepping PC
    /// over the operand bytes.
    fn fetch_operand(&mut self, bus: &mut CpuBus, opcode: &Opcode) -> (r: u16)
        requires
            old(bus).wf(),
        ensures
            final(bus).wf(),
            bus_frame(*old(bus), *final(bus)),
            ({
                let f = spec_fetch_operand(opcode.mode, old(self).register, old(bus)@);
                r == f.val && final(self).register == f.reg && final(bus)@ == f.bus && final(self).page_crossed == (if opcode.mode == Addressing::AbsoluteX || opcode.mode
                    == Addressing::AbsoluteY || opcode.mode == Addressing::IndirectIndexed {
                    f.crossed
                } else {
                    old(self).page_crossed
                })
            }),
            final(self).extra_cycle == old(self).extra_cycle,
            cpu_frame(*old(self), *final(self)),
            final(self).wf() == old(self).wf(),
    {
        match opcode.mode {
            Addressing::Accumulator => 0x0000,
            Addressing::Implied => 0x0000,
            Addressing::Immediate => self.fetch(bus),
            Addressing::ZeroPage => self.fetch(bus),
            Addressing::ZeroPageX => self.fetch_zeropage_x(bus),
            Addressing::ZeroPageY => self.fetch_zeropage_y(bus),
            Addressing::Absolute => self.fetch_word(bus),
            Addressing::AbsoluteX => self.fetch_absolute_x(bus),
            Addressing::AbsoluteY => self.fetch_absolute_y(bus),
            Addressing::Relative => self.fetch_relative_address(bus),
            Addressing::IndirectAbsolute => self.fetch_indirect_absolute(bus),
            Addressing::IndexedIndirect => self.fetch_indexed_indirect(bus),
            Addressing::IndirectIndexed => self.fetch_indirect_indexed(bus),
        }
    }

    /// Feeds the pseudo-random port at $00FE that some programs poll;
    /// every outcome is a byte below 255.
    fn write_random_number(&mut self, bus: &mut CpuBus) -> (r: u8)
        requires
            old(bus).wf(),
        ensures
            final(bus).wf(),
            bus_frame(*old(bus), *final(bus)),
            r < 255,
            final(bus)@ == bus_write_post(old(bus)@, 0x00FE, r),
            *final(self) == *old(self),
    {
        let value = random_byte();
        bus.write(0x00FE, value);
        value
    }
}

/// Relies on rand::random_range over `0..255`: a byte drawn below 255
/// from the thread-local generator; nothing else is assumed of it.
#[verifier::external_body]
fn random_byte() -> (r: u8)
    ensures
        r < 255,
{
    rand::random_range(0u8..255u8)
}

} // verus!

verus! {

/// What one instruction does: the register file and bus after it, the
/// extra cycles beyond the opcode's base count, and the status handed to
/// the orchestrator.
pub struct InstrEffect {
    pub reg: Register,
    pub bus: BusV,
    pub extra: Cycle,
    pub status: EmulationStatus,
}

/// `reg` with Z and N taken from `v`.
pub open spec fn nz(reg: Register, v: u8) -> Register {
    Register { f_zero: v == 0, f_negative: v & 0x80 != 0, ..reg }
}

/// ADC: A + M + C with carry out, Z, N, and the signed-overflow bit
/// `(res ^ M) & (res ^ A) & $80`.
pub open spec fn spec_adc(reg: Register, m: u8) -> Register {
    let c: int = if reg.f_carry { 1 } else { 0 };
    let sum: int = reg.r_a + m + c;
    let res: u8 = sum as u8;
    Register {
        r_a: res,
        f_carry: sum > 0xFF,
        f_zero: res == 0,
        f_negative: res & 0x80 != 0,
        f_overflow: (res ^ m) & (res ^ reg.r_a) & 0x80 != 0,
        ..reg
    }
}

/// SBC: A + !M + C, which is A - M - (1 - C) with borrow in the carry
/// bit; V is `(A ^ M) & (res ^ A) & $80`.
pub open spec fn spec_sbc(reg: Register, m: u8) -> Register {
    let c: int = if reg.f_carry { 1 } else { 0 };
    let sum: int = reg.r_a + (m ^ 0xFF) + c;
    let res: u8 = sum as u8;
    Register {
        r_a: res,
        f_carry: sum > 0xFF,
        f_zero: res == 0,
        f_negative: res & 0x80 != 0,
        f_overflow: (reg.r_a ^ m) & (res ^ reg.r_a) & 0x80 != 0,
        ..reg
    }
}

/// CMP family: flags of `v - m` without storing the difference.
pub open spec fn spec_compare(reg: Register, v: u8, m: u8) -> Register {
    Register {
        f_negative: w8_sub(v, m) & 0x80 != 0,
        f_carry: v >= m,
        f_zero: v == m,
        ..reg
    }
}

/// Branch: on `cond`, PC moves to `target` for one extra cycle, or two
/// when the target sits on another page than the instruction's end.
pub open spec fn spec_branch(reg: Register, cond: bool, target: u16, extra_in: Cycle) -> (
    Register,
    Cycle,
) {
    if cond {
        (
            Register { r_pc: target, ..reg },
            if (reg.r_pc & 0xFF00) != (target & 0xFF00) {
                2 as Cycle
            } else {
                1 as Cycle
            },
        )
    } else {
        (reg, extra_in)
    }
}

/// Operand byte: the immediate itself, or the byte read at `value`.
pub open spec fn mval(mode: Addressing, value: u16, bus: BusV) -> u8 {
    if mode == Addressing::Immediate {
        value as u8
    } else {
        bus_read_val(bus, value)
    }
}

/// Bus after the operand read (immediates read nothing).
pub open spec fn mbus(mode: Addressing, value: u16, bus: BusV) -> BusV {
    if mode == Addressing::Immediate {
        bus
    } else {
        bus_read_post(bus, value)
    }
}

/// One page-crossing penalty cycle on the indexed read modes.
pub open spec fn crossed_extra(mode: Addressing, crossed: bool, extra_in: Cycle) -> Cycle {
    if mode == Addressing::AbsoluteX || mode == Addressing::AbsoluteY || mode
        == Addressing::IndirectIndexed {
        if crossed {
            1 as Cycle
        } else {
            0 as Cycle
        }
    } else {
        extra_in
    }
}

/// Read-modify-write: the operand read at `addr`, then `newv` written
/// back there.
pub open spec fn rmw_bus(bus: BusV, addr: u16, newv: u8) -> BusV {
    bus_write_post(bus_read_post(bus, addr), addr, newv)
}

/// The instruction semantics: what executing `op` with decoded operand
/// `value` does to the register file and the bus, given whether the
/// operand fetch crossed a page and the extra cycles accumulated so far.
#[verifier::opaque]
pub open spec fn exec_instr(
    op: Opcode,
    value: u16,
    crossed: bool,
    extra_in: Cycle,
    reg: Register,
    bus: BusV,
) -> InstrEffect {
    let m = mval(op.mode, value, bus);
    let mb = mbus(op.mode, value, bus);
    let sp = reg.r_sp;
    match op.name {
        Instruction::ADC => InstrEffect {
            reg: spec_adc(reg, m),
            bus: mb,
            extra: crossed_extra(op.mode, crossed, extra_in),
            status: EmulationStatus::PROCESSING,
        },
        Instruction::AND => InstrEffect {
            reg: Register { r_a: (reg.r_a & m) as u8, ..nz(reg, (reg.r_a & m) as u8) },
            bus: mb,
            extra: crossed_extra(op.mode, crossed, extra_in),
            status: EmulationStatus::PROCESSING,
        },
        Instruction::ASL => {
            if op.mode == Addressing::Accumulator {
                let res = (reg.r_a << 1) as u8;
                InstrEffect {
                    reg: Register { r_a: res, f_carry: reg.r_a & 0x80 != 0, ..nz(reg, res) },
                    bus: bus,
                    extra: extra_in,
                    status: EmulationStatus::PROCESSING,
                }
            } else {
                let mm = bus_read_val(bus, value);
                let res = (mm << 1) as u8;
                InstrEffect {
                    reg: Register { f_carry: mm & 0x80 != 0, ..nz(reg, res) },
                    bus: rmw_bus(bus, value, res),
                    extra: extra_in,
                    status: EmulationStatus::PROCESSING,
                }
            }
        },
        Instruction::BCC => {
            let (r2, e2) = spec_branch(reg, !reg.f_carry, value, extra_in);
            InstrEffect { reg: r2, bus: bus, extra: e2, status: EmulationStatus::PROCESSING }
        },
        Instruction::BCS => {
            let (r2, e2) = spec_branch(reg, reg.f_carry, value, extra_in);
            InstrEffect { reg: r2, bus: bus, extra: e2, status: EmulationStatus::PROCESSING }
        },
        Instruction::BEQ => {
            let (r2, e2) = spec_branch(reg, reg.f_zero, value, extra_in);
            InstrEffect { reg: r2, bus: bus, extra: e2, status: EmulationStatus::PROCESSING }
        },
        Instruction::BIT => InstrEffect {
            reg: Register {
                f_zero: reg.r_a & m == 0,
                f_overflow: m & 0x40 != 0,
                f_negative: m & 0x80 != 0,
                ..reg
            },
            bus: mb,
            extra: extra_in,
            status: EmulationStatus::PROCESSING,
        },
        Instruction::BMI => {
            let (r2, e2) = spec_branch(reg, reg.f_negative, value, extra_in);
            InstrEffect { reg: r2, bus: bus, extra: e2, status: EmulationStatus::PROCESSING }
        },
        Instruction::BNE => {
            let (r2, e2) = spec_branch(reg, !reg.f_zero, value, extra_in);
            InstrEffect { reg: r2, bus: bus, extra: e2, status: EmulationStatus::PROCESSING }
        },
        Instruction::BPL => {
            let (r2, e2) = spec_branch(reg, !reg.f_negative, value, extra_in);
            InstrEffect { reg: r2, bus: bus, extra: e2, status: EmulationStatus::PROCESSING }
        },
        Instruction::BRK => {
            let ret = w16_add(reg.r_pc, 1);
            let b1 = bus_write_post(bus, stack_addr(sp), (ret >> 8) as u8);
            let b2 = bus_write_post(b1, stack_addr(w8_sub(sp, 1)), ret as u8);
            let pushed = flags_byte(Register { f_break: true, ..reg });
            let b3 = bus_write_post(b2, stack_addr(w8_sub(sp, 2)), pushed);
            let lo = bus_read_val(b3, 0xFFFE);
            let hi = bus_read_val(b3, 0xFFFF);
            InstrEffect {
                reg: Register {
                    r_pc: (((hi as u16) << 8) | (lo as u16)) as u16,
                    r_sp: w8_sub(sp, 3),
                    f_interrupt: true,
                    ..reg
                },
                bus: b3,
                extra: extra_in,
                status: EmulationStatus::BREAK,
            }
        },
        Instruction::BVC => {
            let (r2, e2) = spec_branch(reg, !reg.f_overflow, value, extra_in);
            InstrEffect { reg: r2, bus: bus, extra: e2, status: EmulationStatus::PROCESSING }
        },
        Instruction::BVS => {
            let (r2, e2) = spec_branch(reg, reg.f_overflow, value, extra_in);
            InstrEffect { reg: r2, bus: bus, extra: e2, status: EmulationStatus::PROCESSING }
        },
        Instruction::CLC => InstrEffect {
            reg: Register { f_carry: false, ..reg },
            bus: bus,
            extra: extra_in,
            status: EmulationStatus::PROCESSING,
        },
        Instruction::CLD => InstrEffect {
            reg: Register { f_decimal: false, ..reg },
            bus: bus,
            extra: extra_in,
            status: EmulationStatus::PROCESSING,
        },
        Instruction::CLI => InstrEffect {
            reg: Register { f_interrupt: false, ..reg },
            bus: bus,
            extra: extra_in,
            status: EmulationStatus::PROCESSING,
        },
        Instruction::CLV => InstrEffect {
            reg: Register { f_overflow: false, ..reg },
            bus: bus,
            extra: extra_in,
            status: EmulationStatus::PROCESSING,
        },
        Instruction::CMP => InstrEffect {
            reg: spec_compare(reg, reg.r_a, m),
            bus: mb,
            extra: crossed_extra(op.mode, crossed, extra_in),
            status: EmulationStatus::PROCESSING,
        },
        Instruction::CPX => InstrEffect {
            reg: spec_compare(reg, reg.r_x, m),
            bus: mb,
            extra: extra_in,
            status: EmulationStatus::PROCESSING,
        },
        Instruction::CPY => InstrEffect {
            reg: spec_compare(reg, reg.r_y, m),
            bus: mb,
            extra: extra_in,
            status: EmulationStatus::PROCESSING,
        },
        Instruction::DEC => {
            let res = w8_sub(bus_read_val(bus, value), 1);
            InstrEffect {
                reg: nz(reg, res),
                bus: rmw_bus(bus, value, res),
                extra: extra_in,
                status: EmulationStatus::PROCESSING,
            }
        },
        Instruction::DEX => {
            let res = w8_sub(reg.r_x, 1);
            InstrEffect {
                reg: Register { r_x: res, ..nz(reg, res) },
                bus: bus,
                extra: extra_in,
                status: EmulationStatus::PROCESSING,
            }
        },
        Instruction::DEY => {
            let res = w8_sub(reg.r_y, 1);
            InstrEffect {
                reg: Register { r_y: res, ..nz(reg, res) },
                bus: bus,
                extra: extra_in,
                status: EmulationStatus::PROCESSING,
            }
        },
        Instruction::DCP => {
            let res = w8_sub(bus_read_val(bus, value), 1);
            InstrEffect {
                reg: spec_compare(reg, reg.r_a, res),
                bus: rmw_bus(bus, value, res),
                extra: extra_in,
                status: EmulationStatus::PROCESSING,
            }
        },
        Instruction::EOR => {
            let res = (reg.r_a ^ m) as u8;
            InstrEffect {
                reg: Register { r_a: res, ..nz(reg, res) },
                bus: mb,
                extra: crossed_extra(op.mode, crossed, extra_in),
                status: EmulationStatus::PROCESSING,
            }
        },
        Instruction::INC => {
            let res = w8_add(bus_read_val(bus, value), 1);
            InstrEffect {
                reg: nz(reg, res),
                bus: rmw_bus(bus, value, res),
                extra: extra_in,
                status: EmulationStatus::PROCESSING,
            }
        },
        Instruction::INX => {
            let res = w8_add(reg.r_x, 1);
            InstrEffect {
                reg: Register { r_x: res, ..nz(reg, res) },
                bus: bus,
                extra: extra_in,
                status: EmulationStatus::PROCESSING,
            }
        },
        Instruction::INY => {
            let res = w8_add(reg.r_y, 1);
            InstrEffect {
                reg: Register { r_y: res, ..nz(reg, res) },
                bus: bus,
                extra: extra_in,
                status: EmulationStatus::PROCESSING,
            }
        },
        Instruction::ISB => {
            let res = w8_add(bus_read_val(bus, value), 1);
            InstrEffect {
                reg: spec_sbc(reg, res),
                bus: rmw_bus(bus, value, res),
                extra: extra_in,
                status: EmulationStatus::PROCESSING,
            }
        },
        Instruction::JMP => InstrEffect {
            reg: Register { r_pc: value, ..reg },
            bus: bus,
            extra: extra_in,
            status: EmulationStatus::PROCESSING,
        },
        Instruction::JSR => {
            let ret = w16_sub(reg.r_pc, 1);
            let b1 = bus_write_post(bus, stack_addr(sp), (ret >> 8) as u8);
            let b2 = bus_write_post(b1, stack_addr(w8_sub(sp, 1)), ret as u8);
            InstrEffect {
                reg: Register { r_pc: value, r_sp: w8_sub(sp, 2), ..reg },
                bus: b2,
                extra: extra_in,
                status: EmulationStatus::PROCESSING,
            }
        },
        Instruction::LAX => InstrEffect {
            reg: Register { r_a: m, r_x: m, ..nz(reg, m) },
            bus: mb,
            extra: crossed_extra(op.mode, crossed, extra_in),
            status: EmulationStatus::PROCESSING,
        },
        Instruction::LDA => InstrEffect {
            reg: Register { r_a: m, ..nz(reg, m) },
            bus: mb,
            extra: crossed_extra(op.mode, crossed, extra_in),
            status: EmulationStatus::PROCESSING,
        },
        Instruction::LDX => InstrEffect {
            reg: Register { r_x: m, ..nz(reg, m) },
            bus: mb,
            extra: crossed_extra(op.mode, crossed, extra_in),
            status: EmulationStatus::PROCESSING,
        },
        Instruction::LDY => InstrEffect {
            reg: Register { r_y: m, ..nz(reg, m) },
            bus: mb,
            extra: crossed_extra(op.mode, crossed, extra_in),
            status: EmulationStatus::PROCESSING,
        },
        Instruction::LSR => {
            if op.mode == Addressing::Accumulator {
                let res = (reg.r_a >> 1) as u8;
                InstrEffect {
                    reg: Register { r_a: res, f_carry: reg.r_a & 0x01 != 0, ..nz(reg, res) },
                    bus: bus,
                    extra: extra_in,
                    status: EmulationStatus::PROCESSING,
                }
            } else {
                let mm = bus_read_val(bus, value);
                let res = (mm >> 1) as u8;
                InstrEffect {
                    reg: Register { f_carry: mm & 0x01 != 0, ..nz(reg, res) },
                    bus: rmw_bus(bus, value, res),
                    extra: extra_in,
                    status: EmulationStatus::PROCESSING,
                }
            }
        },
        Instruction::NOP => InstrEffect {
            reg: reg,
            bus: bus,
            extra: crossed_extra(op.mode, crossed, extra_in),
            status: EmulationStatus::PROCESSING,
        },
        Instruction::ORA => {
            let res = (reg.r_a | m) as u8;
            InstrEffect {
                reg: Register { r_a: res, ..nz(reg, res) },
                bus: mb,
                extra: crossed_extra(op.mode, crossed, extra_in),
                status: EmulationStatus::PROCESSING,
            }
        },
        Instruction::PHA => InstrEffect {
            reg: Register { r_sp: w8_sub(sp, 1), ..reg },
            bus: bus_write_post(bus, stack_addr(sp), reg.r_a),
            extra: extra_in,
            status: EmulationStatus::PROCESSING,
        },
        Instruction::PHP => InstrEffect {
            reg: Register { r_sp: w8_sub(sp, 1), f_break: false, ..reg },
            bus: bus_write_post(bus, stack_addr(sp), flags_byte(Register { f_break: true, ..reg })),
            extra: extra_in,
            status: EmulationStatus::PROCESSING,
        },
        Instruction::PLA => {
            let res = bus_read_val(bus, stack_addr(w8_add(sp, 1)));
            InstrEffect {
                reg: Register { r_a: res, r_sp: w8_add(sp, 1), ..nz(reg, res) },
                bus: bus,
                extra: extra_in,
                status: EmulationStatus::PROCESSING,
            }
        },
        Instruction::PLP => {
            let res = bus_read_val(bus, stack_addr(w8_add(sp, 1)));
            InstrEffect {
                reg: Register {
                    r_sp: w8_add(sp, 1),
                    f_unused: true,
                    f_break: false,
                    ..reg.spec_set_sr(res)
                },
                bus: bus,
                extra: extra_in,
                status: EmulationStatus::PROCESSING,
            }
        },
        Instruction::RLA => {
            let mm = bus_read_val(bus, value);
            let res: u8 = if reg.f_carry { ((mm << 1) + 1) as u8 } else { (mm << 1) as u8 };
            let anded = (reg.r_a & res) as u8;
            InstrEffect {
                reg: Register { r_a: anded, f_carry: mm & 0x80 != 0, ..nz(reg, anded) },
                bus: rmw_bus(bus, value, res),
                extra: extra_in,
                status: EmulationStatus::PROCESSING,
            }
        },
        Instruction::ROL => {
            if op.mode == Addressing::Accumulator {
                let res: u8 = if reg.f_carry { ((reg.r_a << 1) + 1) as u8 } else { (reg.r_a << 1) as u8 };
                InstrEffect {
                    reg: Register { r_a: res, f_carry: reg.r_a & 0x80 != 0, ..nz(reg, res) },
                    bus: bus,
                    extra: extra_in,
                    status: EmulationStatus::PROCESSING,
                }
            } else {
                let mm = bus_read_val(bus, value);
                let res: u8 = if reg.f_carry { ((mm << 1) + 1) as u8 } else { (mm << 1) as u8 };
                InstrEffect {
                    reg: Register { f_carry: mm & 0x80 != 0, ..nz(reg, res) },
                    bus: rmw_bus(bus, value, res),
                    extra: extra_in,
                    status: EmulationStatus::PROCESSING,
                }
            }
        },
        Instruction::ROR => {
            if op.mode == Addressing::Accumulator {
                let res: u8 = if reg.f_carry { ((reg.r_a >> 1) + 128) as u8 } else { (reg.r_a >> 1) as u8 };
                InstrEffect {
                    reg: Register { r_a: res, f_carry: reg.r_a & 0x01 != 0, ..nz(reg, res) },
                    bus: bus,
                    extra: extra_in,
                    status: EmulationStatus::PROCESSING,
                }
            } else {
                let mm = bus_read_val(bus, value);
                let res: u8 = if reg.f_carry { ((mm >> 1) + 128) as u8 } else { (mm >> 1) as u8 };
                InstrEffect {
                    reg: Register { f_carry: mm & 0x01 != 0, ..nz(reg, res) },
                    bus: rmw_bus(bus, value, res),
                    extra: extra_in,
                    status: EmulationStatus::PROCESSING,
                }
            }
        },
        Instruction::RRA => {
            let mm = bus_read_val(bus, value);
            let res: u8 = if reg.f_carry { ((mm >> 1) + 128) as u8 } else { (mm >> 1) as u8 };
            let mid = Register { f_carry: mm & 0x01 != 0, ..reg };
            InstrEffect {
                reg: spec_adc(mid, res),
                bus: rmw_bus(bus, value, res),
                extra: extra_in,
                status: EmulationStatus::PROCESSING,
            }
        },
        Instruction::RTI => {
            let sr = bus_read_val(bus, stack_addr(w8_add(sp, 1)));
            let lo = bus_read_val(bus, stack_addr(w8_add(sp, 2)));
            let hi = bus_read_val(bus, stack_addr(w8_add(sp, 3)));
            InstrEffect {
                reg: Register {
                    r_sp: w8_add(sp, 3),
                    r_pc: (((hi as u16) << 8) | (lo as u16)) as u16,
                    f_unused: true,
                    f_break: false,
                    ..reg.spec_set_sr(sr)
                },
                bus: bus,
                extra: extra_in,
                status: EmulationStatus::PROCESSING,
            }
        },
        Instruction::RTS => {
            let lo = bus_read_val(bus, stack_addr(w8_add(sp, 1)));
            let hi = bus_read_val(bus, stack_addr(w8_add(sp, 2)));
            InstrEffect {
                reg: Register {
                    r_sp: w8_add(sp, 2),
                    r_pc: w16_add((((hi as u16) << 8) | (lo as u16)) as u16, 1),
                    ..reg
                },
                bus: bus,
                extra: extra_in,
                status: EmulationStatus::PROCESSING,
            }
        },
        Instruction::SAX => InstrEffect {
            reg: reg,
            bus: bus_write_post(bus, value, (reg.r_a & reg.r_x) as u8),
            extra: extra_in,
            status: EmulationStatus::PROCESSING,
        },
        Instruction::SBC => InstrEffect {
            reg: spec_sbc(reg, m),
            bus: mb,
            extra: crossed_extra(op.mode, crossed, extra_in),
            status: EmulationStatus::PROCESSING,
        },
        Instruction::SEC => InstrEffect {
            reg: Register { f_carry: true, ..reg },
            bus: bus,
            extra: extra_in,
            status: EmulationStatus::PROCESSING,
        },
        Instruction::SED => InstrEffect {
            reg: Register { f_decimal: true, ..reg },
            bus: bus,
            extra: extra_in,
            status: EmulationStatus::PROCESSING,
        },
        Instruction::SEI => InstrEffect {
            reg: Register { f_interrupt: true, ..reg },
            bus: bus,
            extra: extra_in,
            status: EmulationStatus::PROCESSING,
        },
        Instruction::SLO => {
            let mm = bus_read_val(bus, value);
            let res = (mm << 1) as u8;
            let ored = (reg.r_a | res) as u8;
            InstrEffect {
                reg: Register { r_a: ored, f_carry: mm & 0x80 != 0, ..nz(reg, ored) },
                bus: rmw_bus(bus, value, res),
                extra: extra_in,
                status: EmulationStatus::PROCESSING,
            }
        },
        Instruction::SRE => {
            let mm = bus_read_val(bus, value);
            let res = (mm >> 1) as u8;
            let xored = (reg.r_a ^ res) as u8;
            InstrEffect {
                reg: Register { r_a: xored, f_carry: mm & 0x01 != 0, ..nz(reg, xored) },
                bus: rmw_bus(bus, value, res),
                extra: extra_in,
                status: EmulationStatus::PROCESSING,
            }
        },
        Instruction::STA => InstrEffect {
            reg: reg,
            bus: bus_write_post(bus, value, reg.r_a),
            extra: extra_in,
            status: EmulationStatus::PROCESSING,
        },
        Instruction::STX => InstrEffect {
            reg: reg,
            bus: bus_write_post(bus, value, reg.r_x),
            extra: extra_in,
            status: EmulationStatus::PROCESSING,
        },
        Instruction::STY => InstrEffect {
            reg: reg,
            bus: bus_write_post(bus, value, reg.r_y),
            extra: extra_in,
            status: EmulationStatus::PROCESSING,
        },
        Instruction::TAX => InstrEffect {
            reg: Register { r_x: reg.r_a, ..nz(reg, reg.r_a) },
            bus: bus,
            extra: extra_in,
            status: EmulationStatus::PROCESSING,
        },
        Instruction::TAY => InstrEffect {
            reg: Register { r_y: reg.r_a, ..nz(reg, reg.r_a) },
            bus: bus,
            extra: extra_in,
            status: EmulationStatus::PROCESSING,
        },
        Instruction::TSX => InstrEffect {
            reg: Register { r_x: reg.r_sp, ..nz(reg, reg.r_sp) },
            bus: bus,
            extra: extra_in,
            status: EmulationStatus::PROCESSING,
        },
        Instruction::TXA => InstrEffect {
            reg: Register { r_a: reg.r_x, ..nz(reg, reg.r_x) },
            bus: bus,
            extra: extra_in,
            status: EmulationStatus::PROCESSING,
        },
        Instruction::TXS => InstrEffect {
            reg: Register { r_sp: reg.r_x, ..reg },
            bus: bus,
            extra: extra_in,
            status: EmulationStatus::PROCESSING,
        },
        Instruction::TYA => InstrEffect {
            reg: Register { r_a: reg.r_y, ..nz(reg, reg.r_y) },
            bus: bus,
            extra: extra_in,
            status: EmulationStatus::PROCESSING,
        },
    }
}

} // verus!

verus! {

/// Reads the operand byte: the immediate itself, or the byte at `value`.
fn operand(bus: &mut CpuBus, opcode: &Opcode, value: u16) -> (m: u8)
    requires
        old(bus).wf(),
    ensures
        final(bus).wf(),
        bus_frame(*old(bus), *final(bus)),
        m == mval(opcode.mode, value, old(bus)@),
        final(bus)@ == mbus(opcode.mode, value, old(bus)@),
{
    if opcode.mode == Addressing::Immediate {
        value as u8
    } else {
        bus.peek(value)
    }
}

impl Cpu {
    /// Z and N taken from `res`.
    fn set_nz(&mut self, res: u8)
        ensures
            final(self).register == nz(old(self).register, res),
            final(self).extra_cycle == old(self).extra_cycle,
            final(self).page_crossed == old(self).page_crossed,
            cpu_frame(*old(self), *final(self)),
            final(self).wf() == old(self).wf(),
    {
        self.register.set_flag(StatusFlags::ZERO, res == 0);
        self.register.set_flag(StatusFlags::NEGATIVE, res & 0x80 != 0);
    }

    /// Taken branches cost one extra cycle, and one more when the target
    /// is on another page.
    fn branch(&mut self, cond: bool, target: u16)
        ensures
            ({
                let (r2, e2) = spec_branch(old(self).register, cond, target, old(self).extra_cycle);
                final(self).register == r2 && final(self).extra_cycle == e2
            }),
            final(self).page_crossed == old(self).page_crossed,
            cpu_frame(*old(self), *final(self)),
            final(self).wf() == old(self).wf(),
    {
        if cond {
            self.extra_cycle = if self.register.get_pc() & 0xFF00 != target & 0xFF00 {
                2
            } else {
                1
            };
            self.register.set_pc(target);
        }
    }

    /// ADC on an already-fetched operand.
    fn adc_core(&mut self, m: u8)
        ensures
            final(self).register == spec_adc(old(self).register, m),
            final(self).extra_cycle == old(self).extra_cycle,
            final(self).page_crossed == old(self).page_crossed,
            cpu_frame(*old(self), *final(self)),
            final(self).wf() == old(self).wf(),
    {
        let a = self.register.get_a();
        let c: u16 = if self.register.get_flag(StatusFlags::CARRY) {
            1
        } else {
            0
        };
        let sum: u16 = a as u16 + m as u16 + c;
        let res = sum as u8;
        self.register.set_flag(StatusFlags::CARRY, sum > 0xff);
        self.register.set_flag(StatusFlags::ZERO, res == 0);
        self.register.set_flag(StatusFlags::NEGATIVE, res & 0x80 != 0);
        self.register.set_flag(StatusFlags::OVERFLOW, (res ^ m) & (res ^ a) & 0x80 != 0);
        self.register.set_a(res);
    }

    /// SBC on an already-fetched operand: A + !M + C.
    fn sbc_core(&mut self, m: u8)
        ensures
            final(self).register == spec_sbc(old(self).register, m),
            final(self).extra_cycle == old(self).extra_cycle,
            final(self).page_crossed == old(self).page_crossed,
            cpu_frame(*old(self), *final(self)),
            final(self).wf() == old(self).wf(),
    {
        let a = self.register.get_a();
        let c: u16 = if self.register.get_flag(StatusFlags::CARRY) {
            1
        } else {
            0
        };
        let sum: u16 = a as u16 + (m ^ 0xFF) as u16 + c;
        let res = sum as u8;
        self.register.set_flag(StatusFlags::CARRY, sum > 0xff);
        self.register.set_flag(StatusFlags::ZERO, res == 0);
        self.register.set_flag(StatusFlags::NEGATIVE, res & 0x80 != 0);
        self.register.set_flag(StatusFlags::OVERFLOW, (a ^ m) & (res ^ a) & 0x80 != 0);
        self.register.set_a(res);
    }

    /// CMP/CPX/CPY flags of `v - m`.
    fn compare_core(&mut self, v: u8, m: u8)
        ensures
            final(self).register == spec_compare(old(self).register, v, m),
            final(self).extra_cycle == old(self).extra_cycle,
            final(self).page_crossed == old(self).page_crossed,
            cpu_frame(*old(self), *final(self)),
            final(self).wf() == old(self).wf(),
    {
        let res = v.wrapping_sub(m);
        self.register.set_flag(StatusFlags::NEGATIVE, res & 0x80 != 0);
        self.register.set_flag(StatusFlags::CARRY, v >= m);
        self.register.set_flag(StatusFlags::ZERO, v == m);
    }

    /// The indexed read modes pay one cycle on a page crossing.
    fn apply_page_cross_penalty(&mut self, opcode: &Opcode)
        ensures
            final(self).extra_cycle == crossed_extra(
                opcode.mode,
                old(self).page_crossed,
                old(self).extra_cycle,
            ),
            final(self).register == old(self).register,
            final(self).page_crossed == old(self).page_crossed,
            cpu_frame(*old(self), *final(self)),
            final(self).wf() == old(self).wf(),
    {
        if opcode.mode == Addressing::AbsoluteX || opcode.mode == Addressing::AbsoluteY
            || opcode.mode == Addressing::IndirectIndexed {
            self.extra_cycle = if self.page_crossed {
                1
            } else {
                0
            };
        }
    }

    /// ASL on the byte at `value`: shift left, carry from bit 7.
    fn asl_mem(&mut self, bus: &mut CpuBus, value: u16)
        requires
            old(self).wf(),
            old(bus).wf(),
        ensures
            final(self).wf(),
            final(bus).wf(),
            bus_frame(*old(bus), *final(bus)),
            ({
                let m = bus_read_val(old(bus)@, value);
                final(self).register == (Register { f_carry: m & 0x80 != 0, ..nz(old(self).register, (m << 1) as u8) })
                    && final(bus)@ == rmw_bus(old(bus)@, value, (m << 1) as u8)
            }),
            final(self).extra_cycle == old(self).extra_cycle,
            final(self).page_crossed == old(self).page_crossed,
            cpu_frame(*old(self), *final(self)),
    {
        let m = bus.peek(value);
        let res = m << 1u8;
        bus.write(value, res);
        self.set_nz(res);
        self.register.set_flag(StatusFlags::CARRY, m & 0x80 != 0);
    }

    /// LSR on the byte at `value`: shift right, carry from bit 0.
    fn lsr_mem(&mut self, bus: &mut CpuBus, value: u16)
        requires
            old(self).wf(),
            old(bus).wf(),
        ensures
            final(self).wf(),
            final(bus).wf(),
            bus_frame(*old(bus), *final(bus)),
            ({
                let m = bus_read_val(old(bus)@, value);
                final(self).register == (Register { f_carry: m & 0x01 != 0, ..nz(old(self).register, (m >> 1) as u8) })
                    && final(bus)@ == rmw_bus(old(bus)@, value, (m >> 1) as u8)
            }),
            final(self).extra_cycle == old(self).extra_cycle,
            final(self).page_crossed == old(self).page_crossed,
            cpu_frame(*old(self), *final(self)),
    {
        let m = bus.peek(value);
        let res = m >> 1u8;
        bus.write(value, res);
        self.set_nz(res);
        self.register.set_flag(StatusFlags::CARRY, m & 0x01 != 0);
    }

    /// ROL on the byte at `value`: rotate left through carry.
    fn rol_mem(&mut self, bus: &mut CpuBus, value: u16)
        requires
            old(self).wf(),
            old(bus).wf(),
        ensures
            final(self).wf(),
            final(bus).wf(),
            bus_frame(*old(bus), *final(bus)),
            ({
                let m = bus_read_val(old(bus)@, value);
                final(self).register == (Register { f_carry: m & 0x80 != 0, ..nz(old(self).register, (if old(self).register.f_carry { ((m << 1) + 1) as u8 } else { (m << 1) as u8 })) })
                    && final(bus)@ == rmw_bus(old(bus)@, value, (if old(self).register.f_carry { ((m << 1) + 1) as u8 } else { (m << 1) as u8 }))
            }),
            final(self).extra_cycle == old(self).extra_cycle,
            final(self).page_crossed == old(self).page_crossed,
            cpu_frame(*old(self), *final(self)),
    {
        let m = bus.peek(value);
        proof {
            let mm = m;
            assert((mm << 1u8) <= 254) by (bit_vector);
        }
        let mut res = m << 1u8;
        if self.register.get_flag(StatusFlags::CARRY) {
            res = res + 1;
        }
        bus.write(value, res);
        self.set_nz(res);
        self.register.set_flag(StatusFlags::CARRY, m & 0x80 != 0);
    }

    /// ROR on the byte at `value`: rotate right through carry.
    fn ror_mem(&mut self, bus: &mut CpuBus, value: u16)
        requires
            old(self).wf(),
            old(bus).wf(),
        ensures
            final(self).wf(),
            final(bus).wf(),
            bus_frame(*old(bus), *final(bus)),
            ({
                let m = bus_read_val(old(bus)@, value);
                final(self).register == (Register { f_carry: m & 0x01 != 0, ..nz(old(self).register, (if old(self).register.f_carry { ((m >> 1) + 128) as u8 } else { (m >> 1) as u8 })) })
                    && final(bus)@ == rmw_bus(old(bus)@, value, (if old(self).register.f_carry { ((m >> 1) + 128) as u8 } else { (m >> 1) as u8 }))
            }),
            final(self).extra_cycle == old(self).extra_cycle,
            final(self).page_crossed == old(self).page_crossed,
            cpu_frame(*old(self), *final(self)),
    {
        let m = bus.peek(value);
        proof {
            let mm = m;
            assert((mm >> 1u8) <= 127) by (bit_vector);
        }
        let mut res = m >> 1u8;
        if self.register.get_flag(StatusFlags::CARRY) {
            res = res + 128;
        }
        bus.write(value, res);
        self.set_nz(res);
        self.register.set_flag(StatusFlags::CARRY, m & 0x01 != 0);
    }

    /// INC on the byte at `value`: step up with wrap, Z and N from the result.
    fn inc_mem(&mut self, bus: &mut CpuBus, value: u16)
        requires
            old(self).wf(),
            old(bus).wf(),
        ensures
            final(self).wf(),
            final(bus).wf(),
            bus_frame(*old(bus), *final(bus)),
            ({
                let m = bus_read_val(old(bus)@, value);
                final(self).register == nz(old(self).register, w8_add(m, 1))
                    && final(bus)@ == rmw_bus(old(bus)@, value, w8_add(m, 1))
            }),
            final(self).extra_cycle == old(self).extra_cycle,
            final(self).page_crossed == old(self).page_crossed,
            cpu_frame(*old(self), *final(self)),
    {
        let m = bus.peek(value);
        let res = m.wrapping_add(1);
        bus.write(value, res);
        self.set_nz(res);
    }

    /// DEC on the byte at `value`: step down with wrap, Z and N from the result.
    fn dec_mem(&mut self, bus: &mut CpuBus, value: u16)
        requires
            old(self).wf(),
            old(bus).wf(),
        ensures
            final(self).wf(),
            final(bus).wf(),
            bus_frame(*old(bus), *final(bus)),
            ({
                let m = bus_read_val(old(bus)@, value);
                final(self).register == nz(old(self).register, w8_sub(m, 1))
                    && final(bus)@ == rmw_bus(old(bus)@, value, w8_sub(m, 1))
            }),
            final(self).extra_cycle == old(self).extra_cycle,
            final(self).page_crossed == old(self).page_crossed,
            cpu_frame(*old(self), *final(self)),
    {
        let m = bus.peek(value);
        let res = m.wrapping_sub(1);
        bus.write(value, res);
        self.set_nz(res);
    }

    /// DCP on the byte at `value`: decrement, then compare with A.
    fn dcp_mem(&mut self, bus: &mut CpuBus, value: u16)
        requires
            old(self).wf(),
            old(bus).wf(),
        ensures
            final(self).wf(),
            final(bus).wf(),
            bus_frame(*old(bus), *final(bus)),
            ({
                let m = bus_read_val(old(bus)@, value);
                final(self).register == spec_compare(old(self).register, old(self).register.r_a, w8_sub(m, 1))
                    && final(bus)@ == rmw_bus(old(bus)@, value, w8_sub(m, 1))
            }),
            final(self).extra_cycle == old(self).extra_cycle,
            final(self).page_crossed == old(self).page_crossed,
            cpu_frame(*old(self), *final(self)),
    {
        let m = bus.peek(value);
        let res = m.wrapping_sub(1);
        bus.write(value, res);
        let a = self.register.get_a();
        self.compare_core(a, res);
    }

    /// ISB on the byte at `value`: increment, then SBC of the result.
    fn isb_mem(&mut self, bus: &mut CpuBus, value: u16)
        requires
            old(self).wf(),
            old(bus).wf(),
        ensures
            final(self).wf(),
            final(bus).wf(),
            bus_frame(*old(bus), *final(bus)),
            ({
                let m = bus_read_val(old(bus)@, value);
                final(self).register == spec_sbc(old(self).register, w8_add(m, 1))
                    && final(bus)@ == rmw_bus(old(bus)@, value, w8_add(m, 1))
            }),
            final(self).extra_cycle == old(self).extra_cycle,
            final(self).page_crossed == old(self).page_crossed,
            cpu_frame(*old(self), *final(self)),
    {
        let m = bus.peek(value);
        let res = m.wrapping_add(1);
        bus.write(value, res);
        self.sbc_core(res);
    }

    /// SLO on the byte at `value`: shift left, then OR into A.
    fn slo_mem(&mut self, bus: &mut CpuBus, value: u16)
        requires
            old(self).wf(),
            old(bus).wf(),
        ensures
            final(self).wf(),
            final(bus).wf(),
            bus_frame(*old(bus), *final(bus)),
            ({
                let m = bus_read_val(old(bus)@, value);
                final(self).register == (Register { r_a: (old(self).register.r_a | ((m << 1) as u8)) as u8, f_carry: m & 0x80 != 0, ..nz(old(self).register, (old(self).register.r_a | ((m << 1) as u8)) as u8) })
                    && final(bus)@ == rmw_bus(old(bus)@, value, (m << 1) as u8)
            }),
            final(self).extra_cycle == old(self).extra_cycle,
            final(self).page_crossed == old(self).page_crossed,
            cpu_frame(*old(self), *final(self)),
    {
        let m = bus.peek(value);
        let res = m << 1u8;
        bus.write(value, res);
        self.register.set_flag(StatusFlags::CARRY, m & 0x80 != 0);
        let ored = self.register.get_a() | res;
        self.set_nz(ored);
        self.register.set_a(ored);
    }

    /// SRE on the byte at `value`: shift right, then EOR into A.
    fn sre_mem(&mut self, bus: &mut CpuBus, value: u16)
        requires
            old(self).wf(),
            old(bus).wf(),
        ensures
            final(self).wf(),
            final(bus).wf(),
            bus_frame(*old(bus), *final(bus)),
            ({
                let m = bus_read_val(old(bus)@, value);
                final(self).register == (Register { r_a: (old(self).register.r_a ^ ((m >> 1) as u8)) as u8, f_carry: m & 0x01 != 0, ..nz(old(self).register, (old(self).register.r_a ^ ((m >> 1) as u8)) as u8) })
                    && final(bus)@ == rmw_bus(old(bus)@, value, (m >> 1) as u8)
            }),
            final(self).extra_cycle == old(self).extra_cycle,
            final(self).page_crossed == old(self).page_crossed,
            cpu_frame(*old(self), *final(self)),
    {
        let m = bus.peek(value);
        let res = m >> 1u8;
        bus.write(value, res);
        let xored = self.register.get_a() ^ res;
        self.set_nz(xored);
        self.register.set_flag(StatusFlags::CARRY, m & 0x01 != 0);
        self.register.set_a(xored);
    }

    /// RLA on the byte at `value`: rotate left, then AND into A.
    fn rla_mem(&mut self, bus: &mut CpuBus, value: u16)
        requires
            old(self).wf(),
            old(bus).wf(),
        ensures
            final(self).wf(),
            final(bus).wf(),
            bus_frame(*old(bus), *final(bus)),
            ({
                let m = bus_read_val(old(bus)@, value);
                final(self).register == (Register { r_a: (old(self).register.r_a & (if old(self).register.f_carry { ((m << 1) + 1) as u8 } else { (m << 1) as u8 })) as u8, f_carry: m & 0x80 != 0, ..nz(old(self).register, (old(self).register.r_a & (if old(self).register.f_carry { ((m << 1) + 1) as u8 } else { (m << 1) as u8 })) as u8) })
                    && final(bus)@ == rmw_bus(old(bus)@, value, (if old(self).register.f_carry { ((m << 1) + 1) as u8 } else { (m << 1) as u8 }))
            }),
            final(self).extra_cycle == old(self).extra_cycle,
            final(self).page_crossed == old(self).page_crossed,
            cpu_frame(*old(self), *final(self)),
    {
        let m = bus.peek(value);
        proof {
            let mm = m;
            assert((mm << 1u8) <= 254) by (bit_vector);
        }
        let mut res = m << 1u8;
        if self.register.get_flag(StatusFlags::CARRY) {
            res = res + 1;
        }
        bus.write(value, res);
        let anded = self.register.get_a() & res;
        self.set_nz(anded);
        self.register.set_flag(StatusFlags::CARRY, m & 0x80 != 0);
        self.register.set_a(anded);
    }

    /// RRA on the byte at `value`: rotate right, then ADC of the result.
    fn rra_mem(&mut self, bus: &mut CpuBus, value: u16)
        requires
            old(self).wf(),
            old(bus).wf(),
        ensures
            final(self).wf(),
            final(bus).wf(),
            bus_frame(*old(bus), *final(bus)),
            ({
                let m = bus_read_val(old(bus)@, value);
                final(self).register == spec_adc(Register { f_carry: m & 0x01 != 0, ..old(self).register }, (if old(self).register.f_carry { ((m >> 1) + 128) as u8 } else { (m >> 1) as u8 }))
                    && final(bus)@ == rmw_bus(old(bus)@, value, (if old(self).register.f_carry { ((m >> 1) + 128) as u8 } else { (m >> 1) as u8 }))
            }),
            final(self).extra_cycle == old(self).extra_cycle,
            final(self).page_crossed == old(self).page_crossed,
            cpu_frame(*old(self), *final(self)),
    {
        let m = bus.peek(value);
        proof {
            let mm = m;
            assert((mm >> 1u8) <= 127) by (bit_vector);
        }
        let mut res = m >> 1u8;
        if self.register.get_flag(StatusFlags::CARRY) {
            res = res + 128;
        }
        self.register.set_flag(StatusFlags::CARRY, m & 0x01 != 0);
        bus.write(value, res);
        self.adc_core(res);
    }
}

} // verus!

verus! {

impl Cpu {
    /// One group of the instruction set; the contract is `execute_op`'s.
    #[verifier::rlimit(100)]
    #[verifier::spinoff_prover]
    fn execute_alu(&mut self, value: u16, bus: &mut CpuBus, opcode: &Opcode) -> (r:
        EmulationStatus)
        requires
            old(self).wf(),
            old(bus).wf(),
            (opcode.name == Instruction::ADC || opcode.name == Instruction::AND || opcode.name == Instruction::ASL || opcode.name == Instruction::BIT || opcode.name == Instruction::CMP || opcode.name == Instruction::CPX || opcode.name == Instruction::CPY || opcode.name == Instruction::EOR || opcode.name == Instruction::ORA || opcode.name == Instruction::SBC || opcode.name == Instruction::LAX || opcode.name == Instruction::LDA || opcode.name == Instruction::LDX || opcode.name == Instruction::LDY),
        ensures
            final(self).wf(),
            final(bus).wf(),
            bus_frame(*old(bus), *final(bus)),
            ({
                let e = exec_instr(
                    *opcode,
                    value,
                    old(self).page_crossed,
                    old(self).extra_cycle,
                    old(self).register,
                    old(bus)@,
                );
                final(self).register == e.reg && final(bus)@ == e.bus && final(self).extra_cycle
                    == e.extra && r == e.status
            }),
            final(self).page_crossed == old(self).page_crossed,
            final(self).extra_cycle <= old(self).extra_cycle + 2,
            cpu_frame(*old(self), *final(self)),
    {
        proof {
            reveal(exec_instr);
        }
        match opcode.name {
            Instruction::ADC => {
                let m = operand(bus, opcode, value);
                self.apply_page_cross_penalty(opcode);
                self.adc_core(m);
            },
            Instruction::AND => {
                let m = operand(bus, opcode, value);
                self.apply_page_cross_penalty(opcode);
                let res = self.register.get_a() & m;
                self.set_nz(res);
                self.register.set_a(res);
            },
            Instruction::ASL => {
                if opcode.mode == Addressing::Accumulator {
                    let old_v = self.register.get_a();
                    let res = old_v << 1u8;
                    self.set_nz(res);
                    self.register.set_flag(StatusFlags::CARRY, old_v & 0x80 != 0);
                    self.register.set_a(res);
                } else {
                    self.asl_mem(bus, value);
                }
            },
            Instruction::BIT => {
                let m = operand(bus, opcode, value);
                let a = self.register.get_a();
                self.register.set_flag(StatusFlags::ZERO, a & m == 0);
                self.register.set_flag(StatusFlags::OVERFLOW, m & 0x40 != 0);
                self.register.set_flag(StatusFlags::NEGATIVE, m & 0x80 != 0);
            },
            Instruction::CMP => {
                let m = operand(bus, opcode, value);
                self.apply_page_cross_penalty(opcode);
                let a = self.register.get_a();
                self.compare_core(a, m);
            },
            Instruction::CPX => {
                let m = operand(bus, opcode, value);
                let x = self.register.get_x();
                self.compare_core(x, m);
            },
            Instruction::CPY => {
                let m = operand(bus, opcode, value);
                let y = self.register.get_y();
                self.compare_core(y, m);
            },
            Instruction::EOR => {
                let m = operand(bus, opcode, value);
                self.apply_page_cross_penalty(opcode);
                let res = self.register.get_a() ^ m;
                self.register.set_a(res);
                self.set_nz(res);
            },
            Instruction::ORA => {
                let m = operand(bus, opcode, value);
                let res = self.register.get_a() | m;
                self.apply_page_cross_penalty(opcode);
                self.register.set_a(res);
                self.set_nz(res);
            },
            Instruction::SBC => {
                let m = operand(bus, opcode, value);
                self.apply_page_cross_penalty(opcode);
                self.sbc_core(m);
            },
            Instruction::LAX => {
                let m = operand(bus, opcode, value);
                self.apply_page_cross_penalty(opcode);
                self.set_nz(m);
                self.register.set_a(m);
                self.register.set_x(m);
            },
            Instruction::LDA => {
                let m = operand(bus, opcode, value);
                self.apply_page_cross_penalty(opcode);
                self.set_nz(m);
                self.register.set_a(m);
            },
            Instruction::LDX => {
                let m = operand(bus, opcode, value);
                self.apply_page_cross_penalty(opcode);
                self.set_nz(m);
                self.register.set_x(m);
            },
            Instruction::LDY => {
                let m = operand(bus, opcode, value);
                self.apply_page_cross_penalty(opcode);
                self.set_nz(m);
                self.register.set_y(m);
            },
            // the guard on `opcode.name` rules every other mnemonic out
            _ => {
                proof {
                    assert(false);
                }
            },
        }
        EmulationStatus::PROCESSING
    }

    /// One group of the instruction set; the contract is `execute_op`'s.
    #[verifier::rlimit(100)]
    #[verifier::spinoff_prover]
    fn execute_branch_flags(&mut self, value: u16, bus: &mut CpuBus, opcode: &Opcode) -> (r:
        EmulationStatus)
        requires
            old(self).wf(),
            old(bus).wf(),
            (opcode.name == Instruction::BCC || opcode.name == Instruction::BCS || opcode.name == Instruction::BEQ || opcode.name == Instruction::BMI || opcode.name == Instruction::BNE || opcode.name == Instruction::BPL || opcode.name == Instruction::BVC || opcode.name == Instruction::BVS || opcode.name == Instruction::CLC || opcode.name == Instruction::CLD || opcode.name == Instruction::CLI || opcode.name == Instruction::CLV || opcode.name == Instruction::SEC || opcode.name == Instruction::SED || opcode.name == Instruction::SEI || opcode.name == Instruction::JMP || opcode.name == Instruction::NOP),
        ensures
            final(self).wf(),
            final(bus).wf(),
            bus_frame(*old(bus), *final(bus)),
            ({
                let e = exec_instr(
                    *opcode,
                    value,
                    old(self).page_crossed,
                    old(self).extra_cycle,
                    old(self).register,
                    old(bus)@,
                );
                final(self).register == e.reg && final(bus)@ == e.bus && final(self).extra_cycle
                    == e.extra && r == e.status
            }),
            final(self).page_crossed == old(self).page_crossed,
            final(self).extra_cycle <= old(self).extra_cycle + 2,
            cpu_frame(*old(self), *final(self)),
    {
        proof {
            reveal(exec_instr);
        }
        match opcode.name {
            Instruction::BCC => {
                let cond = !self.register.get_flag(StatusFlags::CARRY);
                self.branch(cond, value);
            },
            Instruction::BCS => {
                let cond = self.register.get_flag(StatusFlags::CARRY);
                self.branch(cond, value);
            },
            Instruction::BEQ => {
                let cond = self.register.get_flag(StatusFlags::ZERO);
                self.branch(cond, value);
            },
            Instruction::BMI => {
                let cond = self.register.get_flag(StatusFlags::NEGATIVE);
                self.branch(cond, value);
            },
            Instruction::BNE => {
                let cond = !self.register.get_flag(StatusFlags::ZERO);
                self.branch(cond, value);
            },
            Instruction::BPL => {
                let cond = !self.register.get_flag(StatusFlags::NEGATIVE);
                self.branch(cond, value);
            },
            Instruction::BVC => {
                let cond = !self.register.get_flag(StatusFlags::OVERFLOW);
                self.branch(cond, value);
            },
            Instruction::BVS => {
                let cond = self.register.get_flag(StatusFlags::OVERFLOW);
                self.branch(cond, value);
            },
            Instruction::CLC => {
                self.register.set_flag(StatusFlags::CARRY, false);
            },
            Instruction::CLD => {
                self.register.set_flag(StatusFlags::DECIMAL, false);
            },
            Instruction::CLI => {
                self.register.set_flag(StatusFlags::INTERRUPT, false);
            },
            Instruction::CLV => {
                self.register.set_flag(StatusFlags::OVERFLOW, false);
            },
            Instruction::SEC => {
                self.register.set_flag(StatusFlags::CARRY, true);
            },
            Instruction::SED => {
                self.register.set_flag(StatusFlags::DECIMAL, true);
            },
            Instruction::SEI => {
                self.register.set_flag(StatusFlags::INTERRUPT, true);
            },
            Instruction::JMP => {
                self.register.set_pc(value);
            },
            Instruction::NOP => {
                self.apply_page_cross_penalty(opcode);
                return EmulationStatus::PROCESSING;
            },
            // the guard on `opcode.name` rules every other mnemonic out
            _ => {
                proof {
                    assert(false);
                }
            },
        }
        EmulationStatus::PROCESSING
    }

    /// One group of the instruction set; the contract is `execute_op`'s.
    #[verifier::rlimit(100)]
    #[verifier::spinoff_prover]
    fn execute_rmw(&mut self, value: u16, bus: &mut CpuBus, opcode: &Opcode) -> (r:
        EmulationStatus)
        requires
            old(self).wf(),
            old(bus).wf(),
            (opcode.name == Instruction::DEC || opcode.name == Instruction::DEX || opcode.name == Instruction::DEY || opcode.name == Instruction::DCP || opcode.name == Instruction::INC || opcode.name == Instruction::INX || opcode.name == Instruction::INY || opcode.name == Instruction::ISB || opcode.name == Instruction::LSR || opcode.name == Instruction::RLA || opcode.name == Instruction::ROL || opcode.name == Instruction::ROR || opcode.name == Instruction::RRA || opcode.name == Instruction::SLO || opcode.name == Instruction::SRE),
        ensures
            final(self).wf(),
            final(bus).wf(),
            bus_frame(*old(bus), *final(bus)),
            ({
                let e = exec_instr(
                    *opcode,
                    value,
                    old(self).page_crossed,
                    old(self).extra_cycle,
                    old(self).register,
                    old(bus)@,
                );
                final(self).register == e.reg && final(bus)@ == e.bus && final(self).extra_cycle
                    == e.extra && r == e.status
            }),
            final(self).page_crossed == old(self).page_crossed,
            final(self).extra_cycle <= old(self).extra_cycle + 2,
            cpu_frame(*old(self), *final(self)),
    {
        proof {
            reveal(exec_instr);
        }
        match opcode.name {
            Instruction::DEC => {
                self.dec_mem(bus, value);
            },
            Instruction::DEX => {
                let res = self.register.get_x().wrapping_sub(1);
                self.set_nz(res);
                self.register.set_x(res);
            },
            Instruction::DEY => {
                let res = self.register.get_y().wrapping_sub(1);
                self.set_nz(res);
                self.register.set_y(res);
            },
            Instruction::DCP => {
                self.dcp_mem(bus, value);
            },
            Instruction::INC => {
                self.inc_mem(bus, value);
            },
            Instruction::INX => {
                let res = self.register.get_x().wrapping_add(1);
                self.set_nz(res);
                self.register.set_x(res);
            },
            Instruction::INY => {
                let res = self.register.get_y().wrapping_add(1);
                self.set_nz(res);
                self.register.set_y(res);
            },
            Instruction::ISB => {
                self.isb_mem(bus, value);
            },
            Instruction::LSR => {
                if opcode.mode == Addressing::Accumulator {
                    let old_v = self.register.get_a();
                    let res = old_v >> 1u8;
                    self.set_nz(res);
                    self.register.set_flag(StatusFlags::CARRY, old_v & 0x01 != 0);
                    self.register.set_a(res);
                } else {
                    self.lsr_mem(bus, value);
                }
            },
            Instruction::RLA => {
                self.rla_mem(bus, value);
            },
            Instruction::ROL => {
                if opcode.mode == Addressing::Accumulator {
                    let old_v = self.register.get_a();
                    proof {
                        let mm = old_v;
                        assert((mm << 1u8) <= 254) by (bit_vector);
                    }
                    let mut res = old_v << 1u8;
                    if self.register.get_flag(StatusFlags::CARRY) {
                        res = res + 1;
                    }
                    self.set_nz(res);
                    self.register.set_flag(StatusFlags::CARRY, old_v & 0x80 != 0);
                    self.register.set_a(res);
                } else {
                    self.rol_mem(bus, value);
                }
            },
            Instruction::ROR => {
                if opcode.mode == Addressing::Accumulator {
                    let old_v = self.register.get_a();
                    proof {
                        let mm = old_v;
                        assert((mm >> 1u8) <= 127) by (bit_vector);
                    }
                    let mut res = old_v >> 1u8;
                    if self.register.get_flag(StatusFlags::CARRY) {
                        res = res + 128;
                    }
                    self.set_nz(res);
                    self.register.set_flag(StatusFlags::CARRY, old_v & 0x01 != 0);
                    self.register.set_a(res);
                } else {
                    self.ror_mem(bus, value);
                }
            },
            Instruction::RRA => {
                self.rra_mem(bus, value);
            },
            Instruction::SLO => {
                self.slo_mem(bus, value);
            },
            Instruction::SRE => {
                self.sre_mem(bus, value);
            },
            // the guard on `opcode.name` rules every other mnemonic out
            _ => {
                proof {
                    assert(false);
                }
            },
        }
        EmulationStatus::PROCESSING
    }

    /// One group of the instruction set; the contract is `execute_op`'s.
    #[verifier::rlimit(100)]
    #[verifier::spinoff_prover]
    fn execute_stack(&mut self, value: u16, bus: &mut CpuBus, opcode: &Opcode) -> (r:
        EmulationStatus)
        requires
            old(self).wf(),
            old(bus).wf(),
            (opcode.name == Instruction::BRK || opcode.name == Instruction::JSR || opcode.name == Instruction::PHA || opcode.name == Instruction::PHP || opcode.name == Instruction::PLA || opcode.name == Instruction::PLP || opcode.name == Instruction::RTI || opcode.name == Instruction::RTS),
        ensures
            final(self).wf(),
            final(bus).wf(),
            bus_frame(*old(bus), *final(bus)),
            ({
                let e = exec_instr(
                    *opcode,
                    value,
                    old(self).page_crossed,
                    old(self).extra_cycle,
                    old(self).register,
                    old(bus)@,
                );
                final(self).register == e.reg && final(bus)@ == e.bus && final(self).extra_cycle
                    == e.extra && r == e.status
            }),
            final(self).page_crossed == old(self).page_crossed,
            final(self).extra_cycle <= old(self).extra_cycle + 2,
            cpu_frame(*old(self), *final(self)),
    {
        proof {
            reveal(exec_instr);
        }
        match opcode.name {
            Instruction::BRK => {
                let ret = self.register.get_pc().wrapping_add(1);
                self.register.push_stack((ret >> 8) as u8, bus);
                self.register.push_stack(ret as u8, bus);
                let was_break = self.register.get_flag(StatusFlags::BREAK);
                self.register.set_flag(StatusFlags::BREAK, true);
                let sr = self.register.get_sr();
                self.register.set_flag(StatusFlags::BREAK, was_break);
                self.register.push_stack(sr, bus);
                self.register.set_flag(StatusFlags::INTERRUPT, true);
                let lo = bus.peek(0xFFFE) as u16;
                let hi = bus.peek(0xFFFF) as u16;
                self.register.set_pc((hi << 8) | lo);
                return EmulationStatus::BREAK;
            },
            Instruction::JSR => {
                let ret = self.register.get_pc().wrapping_sub(1);
                self.register.push_stack((ret >> 8) as u8, bus);
                self.register.push_stack(ret as u8, bus);
                self.register.set_pc(value);
            },
            Instruction::PHA => {
                let a = self.register.get_a();
                self.register.push_stack(a, bus);
            },
            Instruction::PHP => {
                self.register.set_flag(StatusFlags::BREAK, true);
                let sr = self.register.get_sr();
                self.register.push_stack(sr, bus);
                self.register.set_flag(StatusFlags::BREAK, false);
            },
            Instruction::PLA => {
                let res = self.register.pop_stack(bus);
                self.register.set_a(res);
                self.set_nz(res);
            },
            Instruction::PLP => {
                let res = self.register.pop_stack(bus);
                self.register.set_sr(res);
                self.register.set_flag(StatusFlags::UNUSED, true);
                self.register.set_flag(StatusFlags::BREAK, false);
            },
            Instruction::RTI => {
                let sr = self.register.pop_stack(bus);
                let lo = self.register.pop_stack(bus) as u16;
                let hi = self.register.pop_stack(bus) as u16;
                self.register.set_sr(sr);
                self.register.set_pc((hi << 8) | lo);
                self.register.set_flag(StatusFlags::UNUSED, true);
                self.register.set_flag(StatusFlags::BREAK, false);
            },
            Instruction::RTS => {
                let lo = self.register.pop_stack(bus) as u16;
                let hi = self.register.pop_stack(bus) as u16;
                self.register.set_pc(((hi << 8) | lo).wrapping_add(1));
            },
            // the guard on `opcode.name` rules every other mnemonic out
            _ => {
                proof {
                    assert(false);
                }
            },
        }
        EmulationStatus::PROCESSING
    }

    /// One group of the instruction set; the contract is `execute_op`'s.
    #[verifier::rlimit(100)]
    #[verifier::spinoff_prover]
    fn execute_store_transfer(&mut self, value: u16, bus: &mut CpuBus, opcode: &Opcode) -> (r:
        EmulationStatus)
        requires
            old(self).wf(),
            old(bus).wf(),
            (opcode.name == Instruction::SAX || opcode.name == Instruction::STA || opcode.name == Instruction::STX || opcode.name == Instruction::STY || opcode.name == Instruction::TAX || opcode.name == Instruction::TAY || opcode.name == Instruction::TSX || opcode.name == Instruction::TXA || opcode.name == Instruction::TXS || opcode.name == Instruction::TYA),
        ensures
            final(self).wf(),
            final(bus).wf(),
            bus_frame(*old(bus), *final(bus)),
            ({
                let e = exec_instr(
                    *opcode,
                    value,
                    old(self).page_crossed,
                    old(self).extra_cycle,
                    old(self).register,
                    old(bus)@,
                );
                final(self).register == e.reg && final(bus)@ == e.bus && final(self).extra_cycle
                    == e.extra && r == e.status
            }),
            final(self).page_crossed == old(self).page_crossed,
            final(self).extra_cycle <= old(self).extra_cycle + 2,
            cpu_frame(*old(self), *final(self)),
    {
        proof {
            reveal(exec_instr);
        }
        match opcode.name {
            Instruction::SAX => {
                let res = self.register.get_a() & self.register.get_x();
                bus.write(value, res);
            },
            Instruction::STA => {
                let a = self.register.get_a();
                bus.write(value, a);
            },
            Instruction::STX => {
                let x = self.register.get_x();
                bus.write(value, x);
            },
            Instruction::STY => {
                let y = self.register.get_y();
                bus.write(value, y);
            },
            Instruction::TAX => {
                let a = self.register.get_a();
                self.set_nz(a);
                self.register.set_x(a);
            },
            Instruction::TAY => {
                let a = self.register.get_a();
                self.set_nz(a);
                self.register.set_y(a);
            },
            Instruction::TSX => {
                let sp = self.register.get_sp();
                self.set_nz(sp);
                self.register.set_x(sp);
            },
            Instruction::TXA => {
                let x = self.register.get_x();
                self.set_nz(x);
                self.register.set_a(x);
            },
            Instruction::TXS => {
                let x = self.register.get_x();
                self.register.set_sp(x);
            },
            Instruction::TYA => {
                let y = self.register.get_y();
                self.set_nz(y);
                self.register.set_a(y);
            },
            // the guard on `opcode.name` rules every other mnemonic out
            _ => {
                proof {
                    assert(false);
                }
            },
        }
        EmulationStatus::PROCESSING
    }

    /// Executes one decoded instruction: registers, memory, flags and the
    /// extra-cycle count move exactly as `exec_instr` says.
    fn execute_op(&mut self, value: u16, bus: &mut CpuBus, opcode: &Opcode) -> (r:
        EmulationStatus)
        requires
            old(self).wf(),
            old(bus).wf(),
        ensures
            final(self).wf(),
            final(bus).wf(),
            bus_frame(*old(bus), *final(bus)),
            ({
                let e = exec_instr(
                    *opcode,
                    value,
                    old(self).page_crossed,
                    old(self).extra_cycle,
                    old(self).register,
                    old(bus)@,
                );
                final(self).register == e.reg && final(bus)@ == e.bus && final(self).extra_cycle
                    == e.extra && r == e.status
            }),
            final(self).page_crossed == old(self).page_crossed,
            final(self).extra_cycle <= old(self).extra_cycle + 2,
            cpu_frame(*old(self), *final(self)),
    {
        match opcode.name {
            Instruction::ADC | Instruction::AND | Instruction::ASL | Instruction::BIT | Instruction::CMP | Instruction::CPX | Instruction::CPY | Instruction::EOR | Instruction::ORA | Instruction::SBC | Instruction::LAX | Instruction::LDA | Instruction::LDX | Instruction::LDY => self.execute_alu(value, bus, opcode),
            Instruction::BCC | Instruction::BCS | Instruction::BEQ | Instruction::BMI | Instruction::BNE | Instruction::BPL | Instruction::BVC | Instruction::BVS | Instruction::CLC | Instruction::CLD | Instruction::CLI | Instruction::CLV | Instruction::SEC | Instruction::SED | Instruction::SEI | Instruction::JMP | Instruction::NOP => self.execute_branch_flags(value, bus, opcode),
            Instruction::DEC | Instruction::DEX | Instruction::DEY | Instruction::DCP | Instruction::INC | Instruction::INX | Instruction::INY | Instruction::ISB | Instruction::LSR | Instruction::RLA | Instruction::ROL | Instruction::ROR | Instruction::RRA | Instruction::SLO | Instruction::SRE => self.execute_rmw(value, bus, opcode),
            Instruction::BRK | Instruction::JSR | Instruction::PHA | Instruction::PHP | Instruction::PLA | Instruction::PLP | Instruction::RTI | Instruction::RTS => self.execute_stack(value, bus, opcode),
            Instruction::SAX | Instruction::STA | Instruction::STX | Instruction::STY | Instruction::TAX | Instruction::TAY | Instruction::TSX | Instruction::TXA | Instruction::TXS | Instruction::TYA => self.execute_store_transfer(value, bus, opcode),
        }
    }
}

} // verus!

verus! {

/// The per-instruction scratch state as `run` clears it on entry.
pub open spec fn step_entry(c: Cpu) -> Cpu {
    Cpu { extra_cycle: 0, page_crossed: false, ..c }
}

/// What one call of `run` does: the machine after the step, the cycles
/// it consumed, and the status it reported.
pub struct StepOut {
    pub cpu: Cpu,
    pub bus: BusV,
    pub cycles: Cycle,
    pub status: EmulationStatus,
}

/// NMI service: PC high and low and the status byte (B clear, bit 5 as
/// held) go onto the stack, interrupts are masked, and PC loads from
/// the vector at $FFFA/$FFFB.
pub open spec fn spec_nmi(reg: Register, bus: BusV) -> (Register, BusV) {
    let b1 = bus_write_post(bus, stack_addr(reg.r_sp), (reg.r_pc >> 8) as u8);
    let b2 = bus_write_post(b1, stack_addr(w8_sub(reg.r_sp, 1)), (reg.r_pc & 0xFF) as u8);
    let pushed = flags_byte(Register { f_break: false, ..reg });
    let b3 = bus_write_post(b2, stack_addr(w8_sub(reg.r_sp, 2)), pushed);
    let hi = bus_read_val(b3, 0xFFFB);
    let lo = bus_read_val(b3, 0xFFFA);
    (
        Register {
            r_sp: w8_sub(reg.r_sp, 3),
            r_pc: (((hi as u16) << 8) | (lo as u16)) as u16,
            f_break: false,
            f_interrupt: true,
            ..reg
        },
        b3,
    )
}

/// One full instruction step from state (`cpu`, `bus`) with random byte
/// `rv` fed to $00FE: any pending NMI is served first, the opcode at PC
/// is decoded through the table (unknown bytes run as one-byte NOPs),
/// the operand is fetched, the instruction executes, and a DMA triggered
/// by it stalls 513 cycles, or 514 from an odd total cycle count.
#[verifier::opaque]
pub open spec fn spec_step(cpu: Cpu, bus: BusV, rv: u8) -> StepOut {
    let b0 = bus_write_post(bus, 0x00FE, rv);
    let served = cpu.interrupt == CPUInterrupts::INTERRUPTNMI;
    let reg1 = if served {
        spec_nmi(cpu.register, b0).0
    } else {
        cpu.register
    };
    let b1 = if served {
        spec_nmi(cpu.register, b0).1
    } else {
        b0
    };
    let nmi_extra: Cycle = if served {
        7 as Cycle
    } else {
        0 as Cycle
    };
    let opbyte = bus_read_val(b1, reg1.r_pc);
    let b2 = bus_read_post(b1, reg1.r_pc);
    let reg2 = reg_pc_add(reg1, 1);
    match spec_opcode(opbyte) {
        None => {
            let stall: Cycle = if b2.dma_pending {
                (513 + (cpu.cycles % 2)) as Cycle
            } else {
                0 as Cycle
            };
            let total: Cycle = (2 + nmi_extra + stall) as Cycle;
            StepOut {
                cpu: Cpu {
                    register: reg2,
                    extra_cycle: 0,
                    interrupt: CPUInterrupts::INTERRUPTNONE,
                    page_crossed: false,
                    cycles: (cpu.cycles + total) as Cycle,
                },
                bus: BusV { dma_pending: false, ..b2 },
                cycles: total,
                status: EmulationStatus::PROCESSING,
            }
        },
        Some(op) => {
            let fo = spec_fetch_operand(op.mode, reg2, b2);
            let crossed = if op.mode == Addressing::AbsoluteX || op.mode == Addressing::AbsoluteY
                || op.mode == Addressing::IndirectIndexed {
                fo.crossed
            } else {
                false
            };
            let e = exec_instr(op, fo.val, crossed, 0, fo.reg, fo.bus);
            let stall: Cycle = if e.bus.dma_pending {
                (513 + (cpu.cycles % 2)) as Cycle
            } else {
                0 as Cycle
            };
            let total: Cycle = (op.cycle + e.extra + nmi_extra + stall) as Cycle;
            StepOut {
                cpu: Cpu {
                    register: e.reg,
                    extra_cycle: e.extra,
                    interrupt: CPUInterrupts::INTERRUPTNONE,
                    page_crossed: crossed,
                    cycles: (cpu.cycles + total) as Cycle,
                },
                bus: BusV { dma_pending: false, ..e.bus },
                cycles: total,
                status: e.status,
            }
        },
    }
}

/// The machine after a whole sequence of instruction steps, one random
/// byte per step, with the cycle counts summed; the status is the last
/// step's (or BREAK before any step runs).
pub open spec fn spec_step_seq(cpu: Cpu, bus: BusV, rvs: Seq<u8>) -> StepOut
    decreases rvs.len(),
{
    if rvs.len() == 0 {
        StepOut { cpu: cpu, bus: bus, cycles: 0, status: EmulationStatus::BREAK }
    } else {
        let prev = spec_step_seq(cpu, bus, rvs.drop_last());
        let so = spec_step(step_entry(prev.cpu), prev.bus, rvs.last());
        StepOut {
            cpu: so.cpu,
            bus: so.bus,
            cycles: (prev.cycles + so.cycles) as Cycle,
            status: so.status,
        }
    }
}

impl Cpu {
    /// Serves a latched NMI: seven cycles' worth of stack pushes and the
    /// vector load, as `spec_nmi` says.
    fn nmi_service(&mut self, bus: &mut CpuBus)
        requires
            old(self).wf(),
            old(bus).wf(),
        ensures
            final(self).wf(),
            final(bus).wf(),
            bus_frame(*old(bus), *final(bus)),
            final(self).register == spec_nmi(old(self).register, old(bus)@).0,
            final(bus)@ == spec_nmi(old(self).register, old(bus)@).1,
            final(self).extra_cycle == old(self).extra_cycle,
            final(self).page_crossed == old(self).page_crossed,
            cpu_frame(*old(self), *final(self)),
    {
        self.register.set_flag(StatusFlags::BREAK, false);
        let pc = self.register.get_pc();
        self.register.push_stack((pc >> 8) as u8, bus);
        self.register.push_stack((pc & 0xFF) as u8, bus);
        let sr = self.register.get_sr();
        self.register.push_stack(sr, bus);
        self.register.set_flag(StatusFlags::INTERRUPT, true);
        let hi = bus.peek(0xFFFB) as u16;
        let lo = bus.peek(0xFFFA) as u16;
        self.register.set_pc((hi << 8) | lo);
    }

    /// Runs exactly one instruction, serving any pending NMI first, and
    /// hands back the cycles consumed, page-crossing, branch and DMA
    /// penalties included. The machine moves as `spec_step` says, for
    /// some random byte fed to $00FE.
    #[verifier::rlimit(100)]
    #[verifier::spinoff_prover]
    pub fn run(&mut self, bus: &mut CpuBus) -> (r: (Cycle, EmulationStatus))
        requires
            old(self).wf(),
            old(bus).wf(),
            old(self).cycles + 0x11000 <= u64::MAX,
        ensures
            final(self).wf(),
            final(bus).wf(),
            bus_frame(*old(bus), *final(bus)),
            exists|rv: u8|
                rv < 255 && #[trigger] spec_step(step_entry(*old(self)), old(bus)@, rv) == (
                StepOut { cpu: *final(self), bus: final(bus)@, cycles: r.0, status: r.1 }),
            final(self).cycles == old(self).cycles + r.0,
            r.0 <= 0x10FFF,
    {
        self.page_crossed = false;
        self.extra_cycle = 0;
        let rv = self.write_random_number(bus);
        let mut nmi_extra: Cycle = 0;
        if self.interrupt == CPUInterrupts::INTERRUPTNMI {
            self.nmi_service(bus);
            nmi_extra = 7;
        }
        let value = self.fetch(bus);
        match opcode_lookup(value as u8) {
            Option::None => {
                self.interrupt = CPUInterrupts::INTERRUPTNONE;
                let dma = bus.take_dma_pending();
                let stall: Cycle = if dma {
                    513 + (self.cycles % 2)
                } else {
                    0
                };
                let total: Cycle = 2 + nmi_extra + stall;
                self.cycles = self.cycles + total;
                proof {
                    reveal(spec_step);
                    assert(spec_step(step_entry(*old(self)), old(bus)@, rv).cpu == *self);
                }
                (total, EmulationStatus::PROCESSING)
            },
            Option::Some(op) => {
                let operand = self.fetch_operand(bus, &op);
                let st = self.execute_op(operand, bus, &op);
                self.interrupt = CPUInterrupts::INTERRUPTNONE;
                let dma = bus.take_dma_pending();
                let stall: Cycle = if dma {
                    513 + (self.cycles % 2)
                } else {
                    0
                };
                let total: Cycle = op.cycle as Cycle + self.extra_cycle + nmi_extra + stall;
                self.cycles = self.cycles + total;
                proof {
                    reveal(spec_step);
                    assert(spec_step(step_entry(*old(self)), old(bus)@, rv).cpu == *self);
                }
                (total, st)
            },
        }
    }

    /// Runs `n` instructions back to back and reports the total cycles;
    /// the machine moves as `n` chained `spec_step`s, one random byte per
    /// instruction.
    #[verifier::rlimit(100)]
    #[verifier::spinoff_prover]
    pub fn run_instructions(&mut self, n: usize, bus: &mut CpuBus) -> (r: (Cycle, EmulationStatus))
        requires
            old(self).wf(),
            old(bus).wf(),
            old(self).cycles + n * 0x11000 + 0x11000 <= u64::MAX,
        ensures
            final(self).wf(),
            final(bus).wf(),
            final(self).cycles <= old(self).cycles + n * 0x11000,
            exists|rvs: Seq<u8>|
                rvs.len() == n && (forall|k: int| 0 <= k < n ==> rvs[k] < 255) && (
                #[trigger] spec_step_seq(*old(self), old(bus)@, rvs)).cpu == *final(self)
                    && spec_step_seq(*old(self), old(bus)@, rvs).bus == final(bus)@
                    && spec_step_seq(*old(self), old(bus)@, rvs).cycles == r.0,
            r.1 == EmulationStatus::BREAK,
    {
        let mut cycle: Cycle = 0;
        let mut i: usize = 0;
        let ghost mut rvs: Seq<u8> = Seq::empty();
        while i < n
            invariant
                self.wf(),
                bus.wf(),
                i <= n,
                self.cycles <= old(self).cycles + i * 0x11000,
                old(self).cycles + n * 0x11000 + 0x11000 <= u64::MAX,
                cycle <= self.cycles,
                rvs.len() == i,
                forall|k: int| 0 <= k < i ==> rvs[k] < 255,
                spec_step_seq(*old(self), old(bus)@, rvs).cpu == *self,
                spec_step_seq(*old(self), old(bus)@, rvs).bus == bus@,
                spec_step_seq(*old(self), old(bus)@, rvs).cycles == cycle,
            decreases n - i,
        {
            proof {
                let ii = i as int;
                let nn = n as int;
                assert(ii * 0x11000 + 0x11000 <= nn * 0x11000) by (nonlinear_arith)
                    requires ii < nn;
            }
            let ghost prev_cpu = *self;
            let ghost prev_bus = bus@;
            let res = self.run(bus);
            cycle = cycle + res.0;
            proof {
                let ii = i as int;
                assert(ii * 0x11000 + 0x10FFF <= (ii + 1) * 0x11000) by (nonlinear_arith);
                let rv = choose|rv: u8|
                    rv < 255 && #[trigger] spec_step(step_entry(prev_cpu), prev_bus, rv) == (
                    StepOut { cpu: *self, bus: bus@, cycles: res.0, status: res.1 });
                let rvs_before = rvs;
                rvs = rvs.push(rv);
                assert(rvs.drop_last() =~= rvs_before);
            }
            i = i + 1;
        }
        (cycle, EmulationStatus::BREAK)
    }
}

/// The status byte pushed by PHP and BRK carries bit 5 (unused) and
/// bit 4 (B) both set; the byte pushed by NMI service carries bit 5 set
/// and bit 4 clear. This holds in every state whose bit-5 flag is up,
/// which `Cpu::wf` keeps true of all reachable states.
pub proof fn lemma_status_push_bit5(reg: Register)
    requires
        reg.f_unused,
    ensures
        flags_byte(Register { f_break: true, ..reg }) & 0x20 == 0x20,
        flags_byte(Register { f_break: true, ..reg }) & 0x10 == 0x10,
        flags_byte(Register { f_break: false, ..reg }) & 0x20 == 0x20,
        flags_byte(Register { f_break: false, ..reg }) & 0x10 == 0,
{
    lemma_flags_byte_bit5(Register { f_break: true, ..reg });
    lemma_flags_byte_bit5(Register { f_break: false, ..reg });
}

/// Every mirrored RAM index stays inside the 2 KiB array.
proof fn proof_ram_index_bound(addr: u16)
    ensures
        0 <= ram_index(addr) < RAM_SIZE,
{
    assert((addr & 0x7FF) < 0x800) by (bit_vector);
}

/// Bits 5 and 4 of the assembled status byte mirror the bit-5 and B
/// flags.
proof fn lemma_flags_byte_bit5(reg: Register)
    requires
        reg.f_unused,
    ensures
        flags_byte(reg) & 0x20 == 0x20,
        reg.f_break ==> flags_byte(reg) & 0x10 == 0x10,
        !reg.f_break ==> flags_byte(reg) & 0x10 == 0,
{
    let a: u8 = ((if reg.f_carry { 1int } else { 0int }) + (if reg.f_zero { 2int } else { 0int })
        + (if reg.f_interrupt { 4int } else { 0int }) + (if reg.f_decimal { 8int } else { 0int })) as u8;
    let b: u8 = ((if reg.f_overflow { 64int } else { 0int }) + (if reg.f_negative { 128int } else { 0int })) as u8;
    assert(a < 16 && (b == 0 || b == 64 || b == 128 || b == 192));
    if reg.f_break {
        assert(flags_byte(reg) == (a + 48 + b) as u8);
    } else {
        assert(flags_byte(reg) == (a + 32 + b) as u8);
    }
    assert((((a + 48 + b) as u8) & 0x20 == 0x20) && (((a + 48 + b) as u8) & 0x10 == 0x10) && (((a
        + 32 + b) as u8) & 0x20 == 0x20) && (((a + 32 + b) as u8) & 0x10 == 0)) by (bit_vector)
        requires
            a < 16 && (b == 0 || b == 64 || b == 128 || b == 192),
    ;
}

/// For any byte `b`, the instruction effects of `LDA #b; PHA; LDA #0;
/// PLA` leave A back at `b`, with Z and N matching `b`, the stack
/// pointer restored, and memory as the single push left it.
#[verifier::rlimit(100)]
#[verifier::spinoff_prover]
pub proof fn lemma_stack_round_trip(b: u8, reg: Register, bus: BusV)
    requires
        bus.ram.len() == RAM_SIZE,
    ensures
        ({
            let lda = Opcode { name: Instruction::LDA, mode: Addressing::Immediate, cycle: 2 };
            let pha = Opcode { name: Instruction::PHA, mode: Addressing::Implied, cycle: 3 };
            let pla = Opcode { name: Instruction::PLA, mode: Addressing::Implied, cycle: 4 };
            let s1 = exec_instr(lda, b as u16, false, 0, reg, bus);
            let s2 = exec_instr(pha, 0, false, 0, s1.reg, s1.bus);
            let s3 = exec_instr(lda, 0, false, 0, s2.reg, s2.bus);
            let s4 = exec_instr(pla, 0, false, 0, s3.reg, s3.bus);
            s4.reg.r_a == b && s4.reg.f_zero == (b == 0) && s4.reg.f_negative == (b & 0x80 != 0)
                && s4.reg.r_sp == reg.r_sp && s4.bus == s2.bus
        }),
{
    let lda = Opcode { name: Instruction::LDA, mode: Addressing::Immediate, cycle: 2 };
    let pha = Opcode { name: Instruction::PHA, mode: Addressing::Implied, cycle: 3 };
    let pla = Opcode { name: Instruction::PLA, mode: Addressing::Implied, cycle: 4 };
    let s1 = exec_instr(lda, b as u16, false, 0, reg, bus);
    let s2 = exec_instr(pha, 0, false, 0, s1.reg, s1.bus);
    let s3 = exec_instr(lda, 0, false, 0, s2.reg, s2.bus);
    let s4 = exec_instr(pla, 0, false, 0, s3.reg, s3.bus);
    let sp = reg.r_sp;
    let push_at = stack_addr(sp);
    reveal(exec_instr);
    crate::cpu::register::lemma_stack_addr_in_page(sp);
    assert(s1.reg.r_a == b && s1.reg.r_sp == sp && s1.bus == bus);
    assert(s2.bus.ram == ram_write(bus.ram, push_at, b));
    assert(s2.reg.r_sp == w8_sub(sp, 1));
    assert(w8_add(w8_sub(sp, 1), 1) == sp);
    proof_ram_index_bound(push_at);
    assert(s4.reg.r_a == bus_read_val(s3.bus, stack_addr(sp)));
    assert(ram_read(s2.bus.ram, push_at) == b);
}

} // verus!
