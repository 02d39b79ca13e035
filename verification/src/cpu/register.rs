//! CPU register file: A, X, Y, SP, PC and the NV-BDIZC status flags.
//!
//! The stack lives at $0100-$01FF: a push writes at `$0100 | SP` and then
//! decrements SP; a pop increments SP and reads there. SP wraps modulo 256,
//! so no stack operation can ever reach outside that page.

use crate::cpu::bus::bus_write_post;
use crate::cpu::bus::bus_read_val;
use crate::cpu::bus::bus_frame;
use crate::cpu::bus::CpuBus;
use vstd::prelude::*;

verus! {

#[derive(Clone, Copy, PartialEq, Eq, Structural, Debug)]
pub enum StatusFlags {
    CARRY,
    ZERO,
    INTERRUPT,
    DECIMAL,
    BREAK,
    UNUSED,
    OVERFLOW,
    NEGATIVE,
}

#[derive(Clone, Copy, PartialEq, Eq, Structural, Debug)]
pub struct Register {
    pub r_a: u8,
    pub r_x: u8,
    pub r_y: u8,
    pub r_sp: u8,
    pub r_pc: u16,
    pub f_carry: bool,
    pub f_zero: bool,
    pub f_interrupt: bool,
    pub f_decimal: bool,
    pub f_break: bool,
    pub f_unused: bool,
    pub f_overflow: bool,
    pub f_negative: bool,
}

/// Status byte assembled from the eight flags, bit 0 up: C Z I D B U V N.
pub open spec fn flags_byte(r: Register) -> u8 {
    ((if r.f_carry { 1int } else { 0int }) + (if r.f_zero { 2int } else { 0int }) + (if r.f_interrupt { 4int } else { 0int })
        + (if r.f_decimal { 8int } else { 0int }) + (if r.f_break { 16int } else { 0int }) + (if r.f_unused { 32int } else { 0int })
        + (if r.f_overflow { 64int } else { 0int }) + (if r.f_negative { 128int } else { 0int })) as u8
}

impl Register {
    pub open spec fn spec_flag(self, flag: StatusFlags) -> bool {
        match flag {
            StatusFlags::CARRY => self.f_carry,
            StatusFlags::ZERO => self.f_zero,
            StatusFlags::INTERRUPT => self.f_interrupt,
            StatusFlags::DECIMAL => self.f_decimal,
            StatusFlags::BREAK => self.f_break,
            StatusFlags::UNUSED => self.f_unused,
            StatusFlags::OVERFLOW => self.f_overflow,
            StatusFlags::NEGATIVE => self.f_negative,
        }
    }

    pub open spec fn spec_set_flag(self, flag: StatusFlags, v: bool) -> Register {
        match flag {
            StatusFlags::CARRY => Register { f_carry: v, ..self },
            StatusFlags::ZERO => Register { f_zero: v, ..self },
            StatusFlags::INTERRUPT => Register { f_interrupt: v, ..self },
            StatusFlags::DECIMAL => Register { f_decimal: v, ..self },
            StatusFlags::BREAK => Register { f_break: v, ..self },
            StatusFlags::UNUSED => Register { f_unused: v, ..self },
            StatusFlags::OVERFLOW => Register { f_overflow: v, ..self },
            StatusFlags::NEGATIVE => Register { f_negative: v, ..self },
        }
    }

    /// Register file after a raw store to the status byte: each flag takes
    /// its bit of `v`.
    pub open spec fn spec_set_sr(self, v: u8) -> Register {
        Register {
            f_carry: v & 0x01 != 0,
            f_zero: v & 0x02 != 0,
            f_interrupt: v & 0x04 != 0,
            f_decimal: v & 0x08 != 0,
            f_break: v & 0x10 != 0,
            f_unused: v & 0x20 != 0,
            f_overflow: v & 0x40 != 0,
            f_negative: v & 0x80 != 0,
            ..self
        }
    }

    pub fn new() -> (r: Register)
        ensures
            r.r_a == 0 && r.r_x == 0 && r.r_y == 0,
            r.r_sp == 0xff,
            r.r_pc == 0x8000,
            !r.f_carry && !r.f_zero && !r.f_interrupt && !r.f_decimal,
            !r.f_break && r.f_unused && !r.f_overflow && !r.f_negative,
    {
        Register {
            r_a: 0x00,
            r_x: 0x00,
            r_y: 0x00,
            r_sp: 0xff,
            r_pc: 0x8000,
            f_carry: false,
            f_zero: false,
            f_interrupt: false,
            f_decimal: false,
            f_break: false,
            f_unused: true,
            f_overflow: false,
            f_negative: false,
        }
    }

    pub fn get_a(&self) -> (r: u8)
        ensures
            r == self.r_a,
    {
        self.r_a
    }

    pub fn get_x(&self) -> (r: u8)
        ensures
            r == self.r_x,
    {
        self.r_x
    }

    pub fn get_y(&self) -> (r: u8)
        ensures
            r == self.r_y,
    {
        self.r_y
    }

    pub fn get_sp(&self) -> (r: u8)
        ensures
            r == self.r_sp,
    {
        self.r_sp
    }

    pub fn get_pc(&self) -> (r: u16)
        ensures
            r == self.r_pc,
    {
        self.r_pc
    }

    /// Status byte with each flag in its NV-BDIZC position.
    #[verifier::rlimit(60)]
    pub fn get_sr(&self) -> (r: u8)
        ensures
            r == flags_byte(*self),
    {
        (if self.f_carry { 1u8 } else { 0u8 }) + (if self.f_zero { 2u8 } else { 0u8 })
            + (if self.f_interrupt { 4u8 } else { 0u8 }) + (if self.f_decimal { 8u8 } else { 0u8 })
            + (if self.f_break { 16u8 } else { 0u8 }) + (if self.f_unused { 32u8 } else { 0u8 })
            + (if self.f_overflow { 64u8 } else { 0u8 }) + (if self.f_negative { 128u8 } else { 0u8 })
    }

    pub fn set_a(&mut self, v: u8)
        ensures
            *final(self) == (Register { r_a: v, ..*old(self) }),
    {
        self.r_a = v;
    }

    pub fn set_x(&mut self, v: u8)
        ensures
            *final(self) == (Register { r_x: v, ..*old(self) }),
    {
        self.r_x = v;
    }

    pub fn set_y(&mut self, v: u8)
        ensures
            *final(self) == (Register { r_y: v, ..*old(self) }),
    {
        self.r_y = v;
    }

    pub fn set_sp(&mut self, v: u8)
        ensures
            *final(self) == (Register { r_sp: v, ..*old(self) }),
    {
        self.r_sp = v;
    }

    pub fn set_pc(&mut self, v: u16)
        ensures
            *final(self) == (Register { r_pc: v, ..*old(self) }),
    {
        self.r_pc = v;
    }

    /// Raw store to the status byte; every flag takes its bit of `v`.
    pub fn set_sr(&mut self, v: u8)
        ensures
            *final(self) == old(self).spec_set_sr(v),
    {
        self.f_carry = v & 0x01 != 0;
        self.f_zero = v & 0x02 != 0;
        self.f_interrupt = v & 0x04 != 0;
        self.f_decimal = v & 0x08 != 0;
        self.f_break = v & 0x10 != 0;
        self.f_unused = v & 0x20 != 0;
        self.f_overflow = v & 0x40 != 0;
        self.f_negative = v & 0x80 != 0;
    }

    pub fn set_flag(&mut self, flag: StatusFlags, v: bool)
        ensures
            *final(self) == old(self).spec_set_flag(flag, v),
    {
        match flag {
            StatusFlags::CARRY => self.f_carry = v,
            StatusFlags::ZERO => self.f_zero = v,
            StatusFlags::INTERRUPT => self.f_interrupt = v,
            StatusFlags::DECIMAL => self.f_decimal = v,
            StatusFlags::BREAK => self.f_break = v,
            StatusFlags::UNUSED => self.f_unused = v,
            StatusFlags::OVERFLOW => self.f_overflow = v,
            StatusFlags::NEGATIVE => self.f_negative = v,
        }
    }

    pub fn get_flag(&self, flag: StatusFlags) -> (r: bool)
        ensures
            r == self.spec_flag(flag),
    {
        match flag {
            StatusFlags::CARRY => self.f_carry,
            StatusFlags::ZERO => self.f_zero,
            StatusFlags::INTERRUPT => self.f_interrupt,
            StatusFlags::DECIMAL => self.f_decimal,
            StatusFlags::BREAK => self.f_break,
            StatusFlags::UNUSED => self.f_unused,
            StatusFlags::OVERFLOW => self.f_overflow,
            StatusFlags::NEGATIVE => self.f_negative,
        }
    }

    /// PC stepped by one, wrapping at the top of the address space.
    pub fn incr_pc(&mut self)
        ensures
            *final(self) == (Register {
                r_pc: vstd::wrapping::u16_specs::wrapping_add(old(self).r_pc, 1),
                ..*old(self)
            }),
    {
        self.r_pc = self.r_pc.wrapping_add(1);
    }

    pub fn decr_pc(&mut self)
        ensures
            *final(self) == (Register {
                r_pc: vstd::wrapping::u16_specs::wrapping_sub(old(self).r_pc, 1),
                ..*old(self)
            }),
    {
        self.r_pc = self.r_pc.wrapping_sub(1);
    }

    /// SP stepped up by one, wrapping modulo 256.
    pub fn incr_sp(&mut self)
        ensures
            *final(self) == (Register {
                r_sp: vstd::wrapping::u8_specs::wrapping_add(old(self).r_sp, 1),
                ..*old(self)
            }),
    {
        self.r_sp = self.r_sp.wrapping_add(1);
    }

    pub fn decr_sp(&mut self)
        ensures
            *final(self) == (Register {
                r_sp: vstd::wrapping::u8_specs::wrapping_sub(old(self).r_sp, 1),
                ..*old(self)
            }),
    {
        self.r_sp = self.r_sp.wrapping_sub(1);
    }
}

impl Register {
    /// Pushes `v` at `$0100 | SP`, then steps SP down, wrapping modulo
    /// 256: the write can only land inside the stack page.
    pub fn push_stack(&mut self, v: u8, bus: &mut CpuBus)
        requires
            old(bus).wf(),
        ensures
            final(bus).wf(),
            *final(self) == (Register {
                r_sp: vstd::wrapping::u8_specs::wrapping_sub(old(self).r_sp, 1),
                ..*old(self)
            }),
            final(bus)@ == bus_write_post(old(bus)@, stack_addr(old(self).r_sp), v),
            bus_frame(*old(bus), *final(bus)),
    {
        proof {
            lemma_stack_addr_in_page(old(self).r_sp);
        }
        bus.write(0x0100u16 | (self.r_sp as u16), v);
        self.decr_sp();
    }

    /// Steps SP up, wrapping modulo 256, then reads at `$0100 | SP`.
    pub fn pop_stack(&mut self, bus: &mut CpuBus) -> (r: u8)
        requires
            old(bus).wf(),
        ensures
            final(bus).wf(),
            *final(self) == (Register {
                r_sp: vstd::wrapping::u8_specs::wrapping_add(old(self).r_sp, 1),
                ..*old(self)
            }),
            r == bus_read_val(old(bus)@, stack_addr(final(self).r_sp)),
            final(bus)@ == old(bus)@,
            bus_frame(*old(bus), *final(bus)),
    {
        self.incr_sp();
        proof {
            lemma_stack_addr_in_page(self.r_sp);
        }
        bus.peek(0x0100u16 | (self.r_sp as u16))
    }
}

/// Bus address a push or pop with stack pointer `sp` touches.
pub open spec fn stack_addr(sp: u8) -> u16 {
    (0x0100u16 | sp as u16) as u16
}

/// Every stack access stays inside the $0100-$01FF page, whatever SP holds.
pub proof fn lemma_stack_addr_in_page(sp: u8)
    ensures
        0x0100 <= stack_addr(sp) <= 0x01FF,
{
    assert(0x0100 <= (0x0100u16 | sp as u16) <= 0x01FF) by (bit_vector);
}

} // verus!
