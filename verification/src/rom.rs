//! Cartridge: iNES header parsing and the PRG / CHR byte arrays.
//!
//! Only mapper 0 (NROM) is supported, with one or two 16 KiB PRG banks.
//! With a single bank, CPU reads at $8000-$BFFF and $C000-$FFFF both land
//! on it.

use vstd::prelude::*;

verus! {

pub const PRG_BANK: usize = 0x4000;
pub const CHR_SIZE: usize = 0x2000;
pub const INES_HEADER: usize = 16;

/// Nametable arrangement selected by the cartridge.
#[derive(Clone, Copy, PartialEq, Eq, Structural, Debug)]
pub enum Mirroring {
    Horizontal,
    Vertical,
}

/// Why a ROM image was rejected.
#[derive(Clone, Copy, PartialEq, Eq, Structural, Debug)]
pub enum RomLoadError {
    /// Magic bytes are wrong, or the bank counts are outside NROM's range.
    InvalidHeader,
    /// The header asks for a mapper other than 0.
    UnsupportedMapper,
    /// The file ends before the announced PRG and CHR data.
    TruncatedFile,
    /// The host could not read the file at all.
    IoFailure,
}

/// The cartridge contents that an iNES image describes.
pub struct CartContents {
    pub prg: Seq<u8>,
    pub chr: Seq<u8>,
    pub mirroring: Mirroring,
}

/// Magic bytes `"NES\x1A"` begin every iNES file.
pub open spec fn ines_magic_ok(d: Seq<u8>) -> bool {
    d.len() >= INES_HEADER && d[0] == 0x4Eu8 && d[1] == 0x45u8 && d[2] == 0x53u8 && d[3] == 0x1Au8
}

pub open spec fn ines_prg_len(d: Seq<u8>) -> int {
    d[4] * 0x4000
}

pub open spec fn ines_chr_len(d: Seq<u8>) -> int {
    d[5] * 0x2000
}

/// The error an iNES image is rejected with, if any, in the order the
/// loader tests: magic, then mapper, then bank counts, then length.
pub open spec fn ines_error(d: Seq<u8>) -> Option<RomLoadError> {
    if !ines_magic_ok(d) {
        Some(RomLoadError::InvalidHeader)
    } else if d[6] >> 4 != 0 {
        Some(RomLoadError::UnsupportedMapper)
    } else if !(d[4] == 1 || d[4] == 2) || d[5] > 1 {
        Some(RomLoadError::InvalidHeader)
    } else if d.len() < INES_HEADER + ines_prg_len(d) + ines_chr_len(d) {
        Some(RomLoadError::TruncatedFile)
    } else {
        None
    }
}

/// What an accepted iNES image loads as: PRG, then CHR (zero-filled when
/// the image carries no CHR page), and the mirroring bit.
pub open spec fn ines_contents(d: Seq<u8>) -> CartContents {
    CartContents {
        prg: d.subrange(INES_HEADER as int, INES_HEADER + ines_prg_len(d)),
        chr: if d[5] == 1 {
            d.subrange(
                INES_HEADER + ines_prg_len(d),
                INES_HEADER + ines_prg_len(d) + ines_chr_len(d),
            )
        } else {
            Seq::<u8>::new(CHR_SIZE as nat, |i: int| 0u8)
        },
        mirroring: if d[6] & 1 == 1 {
            Mirroring::Vertical
        } else {
            Mirroring::Horizontal
        },
    }
}

pub struct Cartbridge {
    pub program: Vec<u8>,
    pub character: Vec<u8>,
    pub mapper: u8,
    pub mirroring: Mirroring,
    pub size: usize,
    pub offset: usize,
}

/// PRG byte that a CPU read of `addr` ($8000-$FFFF) returns: a single
/// 16 KiB bank answers both halves of the range.
pub open spec fn cart_prg_read(prg: Seq<u8>, addr: u16) -> u8 {
    if prg.len() == PRG_BANK {
        prg[(addr & 0x3FFF) as int]
    } else {
        prg[addr - 0x8000]
    }
}

impl Cartbridge {
    /// A loaded cartridge: one or two PRG banks and a full CHR array.
    pub open spec fn wf(&self) -> bool {
        &&& (self.program@.len() == PRG_BANK || self.program@.len() == 2 * PRG_BANK)
        &&& self.character@.len() == CHR_SIZE
    }

    pub fn new() -> (r: Cartbridge)
        ensures
            r.program@.len() == 0,
            r.character@.len() == 0,
            r.mapper == 0,
            r.mirroring == Mirroring::Horizontal,
            r.size == 0,
            r.offset == 0,
    {
        Cartbridge {
            program: Vec::new(),
            character: Vec::new(),
            mapper: 0,
            mirroring: Mirroring::Horizontal,
            size: 0,
            offset: 0,
        }
    }

    /// PRG length a bare image of `n` bytes pads out to: one 16 KiB bank,
    /// or two once the image outgrows the first. This is the intended
    /// model: a small image forms a single NROM bank, which the CPU bus
    /// mirrors at $C000-$FFFF, so bytes near the top of the bank serve as
    /// the vectors; padding it to two banks instead would bury the
    /// vectors in a zero-filled upper bank.
    pub open spec fn spec_vec_banks(n: int) -> int {
        if n <= PRG_BANK {
            PRG_BANK as int
        } else {
            2 * PRG_BANK
        }
    }

    /// Loads a bare program image (no header) into one or two zero-padded
    /// PRG banks, with an empty CHR array.
    pub fn load_from_vec(&mut self, program: &Vec<u8>)
        requires
            program@.len() <= 2 * PRG_BANK,
        ensures
            final(self).wf(),
            final(self).program@.len() == Cartbridge::spec_vec_banks(program@.len() as int),
            forall|i: int| 0 <= i < program@.len() ==> final(self).program@[i] == program@[i],
            forall|i: int|
                program@.len() <= i < final(self).program@.len() ==> final(self).program@[i]
                    == 0u8,
            final(self).character@ == Seq::<u8>::new(CHR_SIZE as nat, |i: int| 0u8),
            final(self).mapper == 0,
            final(self).mirroring == old(self).mirroring,
            final(self).size == final(self).program@.len(),
    {
        let mut prg: Vec<u8> = Vec::new();
        let mut i: usize = 0;
        while i < program.len()
            invariant
                i <= program@.len(),
                prg@ == program@.subrange(0, i as int),
            decreases program@.len() - i,
        {
            prg.push(program[i]);
            i = i + 1;
        }
        let ghost loaded = program@.len() as int;
        let banked: usize = if program.len() <= PRG_BANK {
            PRG_BANK
        } else {
            2 * PRG_BANK
        };
        prg.resize(banked, 0u8);
        proof {
            assert forall|k: int| 0 <= k < loaded implies prg@[k] == program@[k] by {
                assert(prg@.subrange(0, loaded)[k] == prg@[k]);
            }
        }
        let mut chr: Vec<u8> = Vec::new();
        chr.resize(CHR_SIZE, 0u8);
        proof {
            assert(chr@ =~= Seq::<u8>::new(CHR_SIZE as nat, |i: int| 0u8));
        }
        self.program = prg;
        self.character = chr;
        self.mapper = 0;
        self.size = banked;
    }

    /// Parses an iNES image: checks the magic, the mapper and the bank
    /// counts, then takes the PRG and CHR bytes that follow the header.
    pub fn load_program(&mut self, data: &Vec<u8>) -> (r: Result<(), RomLoadError>)
        ensures
            r is Ok <==> ines_error(data@) is None,
            (r matches Err(e) ==> Some(e) == ines_error(data@) && *final(self) == *old(self)),
            r is Ok ==> {
                &&& final(self).wf()
                &&& final(self).program@ == ines_contents(data@).prg
                &&& final(self).character@ == ines_contents(data@).chr
                &&& final(self).mirroring == ines_contents(data@).mirroring
                &&& final(self).mapper == 0
                &&& final(self).size == ines_prg_len(data@)
                &&& final(self).offset == ines_prg_len(data@)
            },
    {
        if data.len() < INES_HEADER {
            return Err(RomLoadError::InvalidHeader);
        }
        if !(data[0] == 0x4E && data[1] == 0x45 && data[2] == 0x53 && data[3] == 0x1A) {
            return Err(RomLoadError::InvalidHeader);
        }
        if data[6] >> 4 != 0 {
            return Err(RomLoadError::UnsupportedMapper);
        }
        let prg_pages: usize = data[4] as usize;
        let chr_pages: usize = data[5] as usize;
        if !(prg_pages == 1 || prg_pages == 2) || chr_pages > 1 {
            return Err(RomLoadError::InvalidHeader);
        }
        let prg_len: usize = prg_pages * PRG_BANK;
        let chr_len: usize = chr_pages * CHR_SIZE;
        if data.len() < INES_HEADER + prg_len + chr_len {
            return Err(RomLoadError::TruncatedFile);
        }
        let mut prg: Vec<u8> = Vec::new();
        let mut i: usize = 0;
        while i < prg_len
            invariant
                i <= prg_len,
                prg_len <= 2 * PRG_BANK,
                INES_HEADER + prg_len <= data@.len(),
                prg@ == data@.subrange(INES_HEADER as int, INES_HEADER + i),
            decreases prg_len - i,
        {
            prg.push(data[INES_HEADER + i]);
            i = i + 1;
        }
        let mut chr: Vec<u8> = Vec::new();
        if chr_pages == 1 {
            let mut j: usize = 0;
            while j < chr_len
                invariant
                    j <= chr_len,
                    prg_len <= 2 * PRG_BANK,
                    chr_len <= CHR_SIZE,
                    INES_HEADER + prg_len + chr_len <= data@.len(),
                    chr@ == data@.subrange(
                        INES_HEADER + prg_len as int,
                        INES_HEADER + prg_len + j,
                    ),
                decreases chr_len - j,
            {
                chr.push(data[INES_HEADER + prg_len + j]);
                j = j + 1;
            }
        } else {
            chr.resize(CHR_SIZE, 0u8);
            proof {
                assert(chr@ =~= Seq::<u8>::new(CHR_SIZE as nat, |i: int| 0u8));
            }
        }
        self.mirroring = if data[6] & 1 == 1 {
            Mirroring::Vertical
        } else {
            Mirroring::Horizontal
        };
        self.program = prg;
        self.character = chr;
        self.mapper = 0;
        self.size = prg_len;
        self.offset = prg_len;
        Ok(())
    }

    pub fn get_program(&self) -> (r: &Vec<u8>)
        ensures
            r@ == self.program@,
    {
        &self.program
    }

    pub fn get_character(&self) -> (r: &Vec<u8>)
        ensures
            r@ == self.character@,
    {
        &self.character
    }

    pub fn get_size(&self) -> (r: usize)
        ensures
            r == self.size,
    {
        self.size
    }

    pub fn get_mem(&self) -> (r: &Vec<u8>)
        ensures
            r@ == self.program@,
    {
        &self.program
    }

    /// Direct read of PRG byte `i`.
    pub fn peek(&self, i: u16) -> (r: u8)
        requires
            i < self.program@.len(),
        ensures
            r == self.program@[i as int],
    {
        self.program[i as usize]
    }

    /// Direct write of PRG byte `i`.
    pub fn write(&mut self, i: u16, value: u8) -> (r: u8)
        requires
            i < old(self).program@.len(),
        ensures
            final(self).program@ == old(self).program@.update(i as int, value),
            final(self).character@ == old(self).character@,
            final(self).mapper == old(self).mapper,
            final(self).mirroring == old(self).mirroring,
            final(self).size == old(self).size,
            final(self).offset == old(self).offset,
            r == value,
    {
        self.program[i as usize] = value;
        value
    }

    /// CPU-bus read of `addr` ($8000-$FFFF), with the single bank mirrored.
    pub fn prg_read(&self, addr: u16) -> (r: u8)
        requires
            self.wf(),
            addr >= 0x8000,
        ensures
            r == cart_prg_read(self.program@, addr),
    {
        proof {
            assert(addr & 0x3FFF < 0x4000) by (bit_vector);
        }
        if self.program.len() == PRG_BANK {
            self.program[(addr & 0x3FFF) as usize]
        } else {
            self.program[(addr - 0x8000) as usize]
        }
    }
}

} // verus!
