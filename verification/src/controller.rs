//! Serial-shift gamepad: a parallel-to-serial 8-bit shift register.
//!
//! Button order, LSB first: A, B, Select, Start, Up, Down, Left, Right.
//! Writing bit 0 high to $4016 enters the strobe state, in which the shift
//! register continuously reloads from the current button state; writing it
//! low latches one snapshot. Each read returns bit 0 and shifts right;
//! once the eight buttons are shifted out, further reads return 1.

use vstd::prelude::*;

verus! {

/// One button held on the pad, or none.
#[derive(Clone, Copy, PartialEq, Eq, Structural, Debug)]
pub enum KeyStatus {
    Idle,
    A,
    B,
    Select,
    Start,
    Up,
    Down,
    Left,
    Right,
}

impl KeyStatus {
    /// Bit assigned to this button in the shift-register image.
    pub open spec fn spec_mask(self) -> u8 {
        match self {
            KeyStatus::Idle => 0x00,
            KeyStatus::A => 0x01,
            KeyStatus::B => 0x02,
            KeyStatus::Select => 0x04,
            KeyStatus::Start => 0x08,
            KeyStatus::Up => 0x10,
            KeyStatus::Down => 0x20,
            KeyStatus::Left => 0x40,
            KeyStatus::Right => 0x80,
        }
    }

    pub fn mask(&self) -> (r: u8)
        ensures
            r == self.spec_mask(),
    {
        match self {
            KeyStatus::Idle => 0x00,
            KeyStatus::A => 0x01,
            KeyStatus::B => 0x02,
            KeyStatus::Select => 0x04,
            KeyStatus::Start => 0x08,
            KeyStatus::Up => 0x10,
            KeyStatus::Down => 0x20,
            KeyStatus::Left => 0x40,
            KeyStatus::Right => 0x80,
        }
    }
}

pub struct Controller {
    /// Current shift-register contents.
    pub addr: u8,
    /// True while bit 0 of the last $4016 write was high.
    pub strobe: bool,
    /// Button currently held, as reported by the host.
    pub key: KeyStatus,
    /// Serial reads taken since the register was last reloaded; from the
    /// ninth read on, the port feeds 1s.
    pub reads: u8,
}

impl Controller {
    /// State of this controller after one $4016 write of `v`.
    pub open spec fn spec_write(self, v: u8) -> Controller {
        if v & 1 == 1 {
            Controller { strobe: true, addr: self.key.spec_mask(), reads: 0, ..self }
        } else {
            Controller { strobe: false, ..self }
        }
    }

    /// Bit returned by one $4016 read: while strobed, the live A button;
    /// then bit 0 of the register for eight reads; 1 once it is empty.
    pub open spec fn spec_read_val(self) -> u8 {
        if self.strobe {
            self.key.spec_mask() & 1
        } else if self.reads >= 8 {
            1u8
        } else {
            self.addr & 1
        }
    }

    /// State of this controller after one $4016 read.
    pub open spec fn spec_read_post(self) -> Controller {
        if self.strobe {
            Controller { addr: self.key.spec_mask(), reads: 0, ..self }
        } else if self.reads >= 8 {
            self
        } else {
            Controller { addr: self.addr >> 1, reads: (self.reads + 1) as u8, ..self }
        }
    }

    pub fn new() -> (r: Controller)
        ensures
            r.addr == 0,
            !r.strobe,
            r.key == KeyStatus::Idle,
            r.reads == 0,
    {
        Controller { addr: 0x00, strobe: false, key: KeyStatus::Idle, reads: 0 }
    }

    /// Strobe write from the CPU bus ($4016).
    pub fn write(&mut self, v: u8) -> (r: u8)
        ensures
            *final(self) == old(self).spec_write(v),
            r == v,
    {
        self.strobe = v & 1 == 1;
        if self.strobe {
            self.addr = self.key.mask();
            self.reads = 0;
        }
        v
    }

    /// Serial read from the CPU bus ($4016): bit 0 of the register, then a
    /// shift right; after the eighth read the empty register reads as 1.
    pub fn read(&mut self) -> (r: u8)
        ensures
            r == old(self).spec_read_val(),
            *final(self) == old(self).spec_read_post(),
    {
        if self.strobe {
            self.addr = self.key.mask();
            self.reads = 0;
            self.addr & 1
        } else if self.reads >= 8 {
            1
        } else {
            let old_bits = self.addr;
            self.addr = self.addr >> 1;
            self.reads = self.reads + 1;
            old_bits & 1
        }
    }
}

} // verus!
