//! The CPU's memory map: 2 KiB of work RAM mirrored up to `0x1FFF`, the
//! cartridge from `0x8000`, and nothing in between.
use vstd::prelude::*;
use crate::mapper::Mapper;

verus! {

/// The contents of the memory map: the work RAM and the two PRG banks.
pub struct MemView {
    pub ram: Seq<u8>,
    pub lower: Seq<u8>,
    pub upper: Seq<u8>,
}

/// The little-endian word with low byte `lo` and high byte `hi`.
pub open spec fn word(lo: u8, hi: u8) -> u16 {
    (lo + 256 * hi) as u16
}

impl MemView {
    pub open spec fn wf(self) -> bool {
        self.ram.len() == 0x800 && self.lower.len() == 0x4000 && self.upper.len() == 0x4000
    }

    /// The byte a read of `addr` returns: 0 where nothing is mapped.
    pub open spec fn read(self, addr: u16) -> u8 {
        if addr < 0x2000 {
            self.ram[addr as int % 0x800]
        } else if addr < 0x8000 {
            0
        } else if addr < 0xC000 {
            self.lower[addr as int - 0x8000]
        } else {
            self.upper[addr as int - 0xC000]
        }
    }

    /// The contents after writing `v` at `addr`: only RAM takes writes.
    pub open spec fn write(self, addr: u16, v: u8) -> MemView {
        if addr < 0x2000 {
            MemView { ram: self.ram.update(addr as int % 0x800, v), ..self }
        } else {
            self
        }
    }

    /// The word at `addr` and the address after it, wrapping at `0xFFFF`.
    pub open spec fn read_word(self, addr: u16) -> u16 {
        word(self.read(addr), self.read(addr.wrapping_add(1)))
    }

    /// The word at zero-page `addr`, its high byte from `(addr + 1) mod 0x100`.
    pub open spec fn read_word_zp(self, addr: u8) -> u16 {
        word(self.read(addr as u16), self.read(addr.wrapping_add(1) as u16))
    }
}

/// A read of `addr` after a write of `v` at `w` sees `v` where the two
/// addresses reach one RAM cell, and what it saw before otherwise.
pub proof fn lemma_read_after_write(m: MemView, w: u16, v: u8, addr: u16)
    requires
        m.wf(),
    ensures
        m.write(w, v).wf(),
        m.write(w, v).read(addr) == if w < 0x2000 && addr < 0x2000 && w % 0x800 == addr % 0x800 {
            v
        } else {
            m.read(addr)
        },
{
}

/// The 2 KiB of work RAM.
struct RAM {
    ram: [u8; 0x800],
}

proof fn lemma_ram_index(address: u16)
    ensures
        address & 0x7FF == address % 0x800,
{
    assert(address & 0x7FF == address % 0x800) by (bit_vector);
}

impl RAM {
    fn read(&self, address: u16) -> (r: u8)
        ensures
            r == self.ram@[address as int % 0x800],
    {
        proof {
            lemma_ram_index(address);
        }
        self.ram[(address & 0x7FF) as usize]
    }

    fn write(&mut self, address: u16, value: u8)
        ensures
            final(self).ram@ == old(self).ram@.update(address as int % 0x800, value),
    {
        proof {
            lemma_ram_index(address);
        }
        self.ram[(address & 0x7FF) as usize] = value;
    }
}

/// What the CPU sees of the address space.
pub struct MemMap {
    ram: RAM,
    mapper: Mapper,
}

impl View for MemMap {
    type V = MemView;

    closed spec fn view(&self) -> MemView {
        MemView { ram: self.ram.ram@, lower: self.mapper.lower(), upper: self.mapper.upper() }
    }
}

impl MemMap {
    /// The contents always have their fixed sizes.
    pub proof fn lemma_wf(&self)
        ensures
            self@.wf(),
    {
        self.mapper.lemma_bank_sizes();
    }

    /// A memory map with zeroed RAM over the banks of `mapper`.
    pub fn new(mapper: Mapper) -> (r: MemMap)
        ensures
            r@ == (MemView {
                ram: Seq::new(0x800, |i: int| 0u8),
                lower: mapper.lower(),
                upper: mapper.upper(),
            }),
    {
        let r = MemMap { ram: RAM { ram: [0u8; 0x800] }, mapper: mapper };
        assert(r@.ram =~= Seq::new(0x800, |i: int| 0u8));
        r
    }

    /// Reads a byte; unmapped addresses read as 0.
    pub fn read(&self, address: u16) -> (r: u8)
        ensures
            r == self@.read(address),
    {
        if address < 0x2000 {
            self.ram.read(address)
        } else if address >= 0x8000 {
            self.mapper.read(address)
        } else {
            0
        }
    }

    /// Writes a byte; writes outside RAM are dropped.
    pub fn write(&mut self, address: u16, value: u8)
        ensures
            final(self)@ == old(self)@.write(address, value),
    {
        if address < 0x2000 {
            self.ram.write(address, value);
        }
    }

    /// Reads the little-endian word at `address` and the address after it.
    pub fn readw(&self, address: u16) -> (r: u16)
        ensures
            r == self@.read_word(address),
    {
        let lo = self.read(address);
        let hi = self.read(address.wrapping_add(1));
        (hi as u16) * 256 + lo as u16
    }

    /// Reads the little-endian word at a zero-page address; the high byte of
    /// `0x00FF` comes from `0x0000`.
    pub fn readw_zp(&self, address: u16) -> (r: u16)
        requires
            address <= 0xFF,
        ensures
            r == self@.read_word_zp(address as u8),
    {
        let lo = self.read(address);
        let hi = if address == 0xFF {
            self.read(0x0000)
        } else {
            self.read(address + 1)
        };
        (hi as u16) * 256 + lo as u16
    }
}

} // verus!
