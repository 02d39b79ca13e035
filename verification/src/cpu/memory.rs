//! 2 KiB CPU work RAM; CPU addresses $0000-$1FFF reach `mem[addr & 0x07FF]`.

use vstd::prelude::*;

verus! {

pub const RAM_SIZE: usize = 0x800;

/// Cell that a CPU address lands on, after mirroring.
pub open spec fn ram_index(addr: u16) -> int {
    (addr & 0x7FF) as int
}

/// Byte that a read of CPU address `addr` returns.
pub open spec fn ram_read(m: Seq<u8>, addr: u16) -> u8 {
    m[ram_index(addr)]
}

/// RAM contents after a write of `v` at CPU address `addr`.
pub open spec fn ram_write(m: Seq<u8>, addr: u16, v: u8) -> Seq<u8> {
    m.update(ram_index(addr), v)
}

/// How many bytes of `s` are nonzero.
pub open spec fn nonzero_count(s: Seq<u8>) -> int
    decreases s.len(),
{
    if s.len() == 0 {
        0
    } else {
        nonzero_count(s.drop_last()) + if s.last() != 0 {
            1int
        } else {
            0int
        }
    }
}

/// A sequence holds at most as many nonzero bytes as it has bytes.
pub proof fn lemma_nonzero_count_bounded(s: Seq<u8>)
    ensures
        0 <= nonzero_count(s) <= s.len(),
    decreases s.len(),
{
    if s.len() > 0 {
        lemma_nonzero_count_bounded(s.drop_last());
    }
}

pub struct Ram {
    pub mem: Vec<u8>,
    pub size: usize,
}

impl View for Ram {
    type V = Seq<u8>;

    open spec fn view(&self) -> Seq<u8> {
        self.mem@
    }
}

impl Ram {
    pub open spec fn wf(&self) -> bool {
        self@.len() == RAM_SIZE
    }

    pub fn new() -> (r: Ram)
        ensures
            r.wf(),
            r@ == Seq::<u8>::new(RAM_SIZE as nat, |i: int| 0u8),
            r.size == 0,
    {
        let mut mem: Vec<u8> = Vec::new();
        mem.resize(RAM_SIZE, 0u8);
        let r = Ram { mem, size: 0 };
        proof {
            assert(r@ =~= Seq::<u8>::new(RAM_SIZE as nat, |i: int| 0u8));
        }
        r
    }

    /// Loads `data` into the bottom of RAM, skipping zero bytes: only
    /// nonzero bytes are stored, and only they count into `size`.
    pub fn load_program(&mut self, data: &Vec<u8>)
        requires
            old(self).wf(),
            data@.len() <= RAM_SIZE,
            old(self).size + data@.len() <= usize::MAX,
        ensures
            final(self).wf(),
            forall|i: int|
                0 <= i < data@.len() ==> final(self)@[i] == (if data@[i] != 0 {
                    data@[i]
                } else {
                    old(self)@[i]
                }),
            forall|i: int| data@.len() <= i < RAM_SIZE ==> final(self)@[i] == old(self)@[i],
            final(self).size == old(self).size + nonzero_count(data@),
    {
        let mut i: usize = 0;
        while i < data.len()
            invariant
                self.wf(),
                i <= data@.len(),
                data@.len() <= RAM_SIZE,
                old(self).size + data@.len() <= usize::MAX,
                forall|j: int|
                    0 <= j < i ==> self@[j] == (if data@[j] != 0 {
                        data@[j]
                    } else {
                        old(self)@[j]
                    }),
                forall|j: int| i <= j < RAM_SIZE ==> self@[j] == old(self)@[j],
                self.size == old(self).size + nonzero_count(data@.subrange(0, i as int)),
                nonzero_count(data@.subrange(0, i as int)) <= i,
            decreases data@.len() - i,
        {
            proof {
                assert(data@.subrange(0, i + 1).drop_last() =~= data@.subrange(0, i as int));
                assert(data@.subrange(0, i + 1).last() == data@[i as int]);
                lemma_nonzero_count_bounded(data@.subrange(0, i + 1));
            }
            let bit = data[i];
            if bit != 0 {
                self.size = self.size + 1;
                self.mem[i] = bit;
            }
            i = i + 1;
        }
        proof {
            assert(data@.subrange(0, data@.len() as int) =~= data@);
        }
    }

    pub fn get_size(&self) -> (r: usize)
        ensures
            r == self.size,
    {
        self.size
    }

    /// Mirrored read of CPU address `i`.
    pub fn peek(&self, i: u16) -> (r: u8)
        requires
            self.wf(),
        ensures
            r == ram_read(self@, i),
    {
        proof {
            assert(i & 0x7FF < 0x800) by (bit_vector);
        }
        self.mem[(i & 0x7FF) as usize]
    }

    /// Mirrored write of CPU address `i`; hands the written byte back.
    pub fn write(&mut self, i: u16, value: u8) -> (r: u8)
        requires
            old(self).wf(),
        ensures
            final(self).wf(),
            final(self)@ == ram_write(old(self)@, i, value),
            final(self).size == old(self).size,
            r == value,
    {
        proof {
            assert(i & 0x7FF < 0x800) by (bit_vector);
        }
        self.mem[(i & 0x7FF) as usize] = value;
        value
    }
}

} // verus!
