//! The cartridge mapper: the two 16 KiB PRG banks seen at `0x8000..=0xFFFF`.
use vstd::prelude::*;
use crate::rom::INesFile;

verus! {

/// The banks that mapper 0 selects for a file with `pages` PRG pages, given
/// the banks held before: one page fills both banks, two or more put page 0
/// low and page 1 high; other mappers (and a file with no page) leave the
/// banks as they were.
pub open spec fn selected_banks(
    rom: &INesFile,
    lower: Seq<u8>,
    upper: Seq<u8>,
) -> (Seq<u8>, Seq<u8>) {
    if rom.mapper != 0 || rom.prg_rom@.len() == 0 {
        (lower, upper)
    } else if rom.prg_rom@.len() == 1 {
        (rom.prg_rom@[0]@, rom.prg_rom@[0]@)
    } else {
        (rom.prg_rom@[0]@, rom.prg_rom@[1]@)
    }
}

/// The PRG banks of a cartridge and the file they come from.
pub struct Mapper {
    upper_bank: [u8; 0x4000],
    lower_bank: [u8; 0x4000],
    rom: INesFile,
}

impl Mapper {
    /// The bank seen at `0x8000..=0xBFFF`.
    pub closed spec fn lower(&self) -> Seq<u8> {
        self.lower_bank@
    }

    /// The bank seen at `0xC000..=0xFFFF`.
    pub closed spec fn upper(&self) -> Seq<u8> {
        self.upper_bank@
    }

    /// The file the banks are loaded from.
    pub closed spec fn rom(&self) -> &INesFile {
        &self.rom
    }

    /// Both banks are 16 KiB.
    pub proof fn lemma_bank_sizes(&self)
        ensures
            self.lower().len() == 0x4000,
            self.upper().len() == 0x4000,
    {
    }

    /// A mapper for `rom` whose banks are still zeroed; `load` fills them.
    pub fn new(rom: INesFile) -> (r: Mapper)
        ensures
            r.lower() == Seq::new(0x4000, |i: int| 0u8),
            r.upper() == Seq::new(0x4000, |i: int| 0u8),
            r.rom() == &rom,
    {
        let up = [0u8; 0x4000];
        let lo = [0u8; 0x4000];
        let r = Mapper { upper_bank: up, lower_bank: lo, rom: rom };
        assert(r.lower() =~= Seq::new(0x4000, |i: int| 0u8));
        assert(r.upper() =~= Seq::new(0x4000, |i: int| 0u8));
        r
    }

    /// The byte at a cartridge address.
    pub fn read(&self, address: u16) -> (r: u8)
        requires
            address >= 0x8000,
        ensures
            r == if address < 0xC000 {
                self.lower()[address as int - 0x8000]
            } else {
                self.upper()[address as int - 0xC000]
            },
    {
        if address < 0xC000 {
            self.lower_bank[(address - 0x8000) as usize]
        } else {
            self.upper_bank[(address - 0xC000) as usize]
        }
    }

    /// Copies the PRG pages of the file into the banks, as mapper 0 lays
    /// them out.
    pub fn load(&mut self)
        ensures
            (final(self).lower(), final(self).upper()) == selected_banks(
                old(self).rom(),
                old(self).lower(),
                old(self).upper(),
            ),
            final(self).rom() == old(self).rom(),
    {
        if self.rom.mapper == 0 {
            let pages = self.rom.prg_rom.len();
            if pages == 1 {
                self.upper_bank = self.rom.prg_rom[0];
                self.lower_bank = self.rom.prg_rom[0];
            } else if pages >= 2 {
                self.lower_bank = self.rom.prg_rom[0];
                self.upper_bank = self.rom.prg_rom[1];
            }
        }
    }
}

} // verus!
