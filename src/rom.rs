//! Loading of iNES cartridge images.
use vstd::prelude::*;

verus! {

/// Size of one PRG-ROM page.
pub const PRG_PAGE_SIZE: usize = 0x4000;

/// Size of the optional trainer block that may follow the header.
pub const TRAINER_SIZE: usize = 0x200;

/// Size of the iNES header.
pub const HEADER_SIZE: usize = 16;

/// Why an image could not be loaded.
#[derive(Clone, Copy, Debug, PartialEq, Eq, Structural)]
pub enum RomError {
    /// The image does not start with `"NES\x1A"`.
    InvalidMagic,
    /// The image ends before its header, trainer or PRG-ROM pages do.
    Truncated,
}

/// A parsed iNES image: the header fields, the trainer and the PRG-ROM pages.
pub struct INesFile {
    pub magic: [u8; 4],
    pub has_trainer: bool,
    pub mapper: u8,
    pub prg_rom_cnt: u8,
    pub prg_rom_size: u32,
    pub chr_rom_size: u32,
    pub prg_ram_size: u32,
    pub flags6: u8,
    pub flags7: u8,
    pub flags9: u8,
    pub flags10: u8,
    pub zeros: [u8; 5],
    pub trainer: [u8; 0x200],
    pub prg_rom: Vec<[u8; 0x4000]>,
}

/// Whether the image starts with the iNES magic `"NES\x1A"` (it must hold a
/// full header).
pub open spec fn magic_ok(b: Seq<u8>) -> bool {
    b[0] == 0x4E && b[1] == 0x45 && b[2] == 0x53 && b[3] == 0x1A
}

/// Whether the header announces a 512-byte trainer.
pub open spec fn trainer_present(b: Seq<u8>) -> bool {
    b[6] & 0x04 != 0
}

/// Offset of the first PRG-ROM page.
pub open spec fn prg_start(b: Seq<u8>) -> int {
    HEADER_SIZE + if trainer_present(b) { TRAINER_SIZE as int } else { 0 }
}

/// Offset just past the last PRG-ROM page.
pub open spec fn prg_end(b: Seq<u8>) -> int {
    prg_start(b) + b[4] * PRG_PAGE_SIZE
}

/// The mapper number, from the high nibbles of flags 7 and flags 6.
pub open spec fn mapper_number(flags6: u8, flags7: u8) -> u8 {
    (flags7 & 0xF0) | (flags6 >> 4u8)
}

/// Page `k` of the PRG-ROM as the image holds it.
pub open spec fn prg_page(b: Seq<u8>, k: int) -> Seq<u8> {
    b.subrange(prg_start(b) + k * PRG_PAGE_SIZE, prg_start(b) + (k + 1) * PRG_PAGE_SIZE)
}

/// What `INesFile::load` returns on `b`.
pub open spec fn load_result(b: Seq<u8>) -> Result<(), RomError> {
    if b.len() < HEADER_SIZE {
        Err(RomError::Truncated)
    } else if !magic_ok(b) {
        Err(RomError::InvalidMagic)
    } else if b.len() < prg_end(b) {
        Err(RomError::Truncated)
    } else {
        Ok(())
    }
}

impl INesFile {
    /// Whether this file holds what the image `b` describes.
    pub open spec fn parsed_from(&self, b: Seq<u8>) -> bool {
        &&& self.magic@ == b.subrange(0, 4)
        &&& self.prg_rom_cnt == b[4]
        &&& self.prg_rom_size == b[4] * 16384
        &&& self.chr_rom_size == b[5] * 8192
        &&& self.flags6 == b[6]
        &&& self.flags7 == b[7]
        &&& self.prg_ram_size == b[8] * 8192
        &&& self.flags9 == b[9]
        &&& self.flags10 == b[10]
        &&& self.zeros@ == b.subrange(11, 16)
        &&& self.mapper == mapper_number(b[6], b[7])
        &&& self.has_trainer == trainer_present(b)
        &&& (self.has_trainer ==> self.trainer@ == b.subrange(16, 16 + TRAINER_SIZE))
        &&& (!self.has_trainer ==> self.trainer@ == Seq::new(TRAINER_SIZE as nat, |i: int| 0u8))
        &&& self.prg_rom@.len() == b[4]
        &&& forall|k: int| 0 <= k < b[4] ==> #[trigger] self.prg_rom@[k]@ == prg_page(b, k)
    }

    /// Parses an iNES image: the 16-byte header, the trainer if flags 6 has
    /// bit 2 set, and the PRG-ROM pages. CHR-ROM is not read.
    pub fn load(bin: Vec<u8>) -> (r: Result<INesFile, RomError>)
        ensures
            r is Ok <==> load_result(bin@) is Ok,
            r is Err ==> r == Err::<INesFile, RomError>(load_result(bin@)->Err_0),
            r is Ok ==> r->Ok_0.parsed_from(bin@),
    {
        if bin.len() < HEADER_SIZE {
            return Err(RomError::Truncated);
        }
        if bin[0] != 0x4E || bin[1] != 0x45 || bin[2] != 0x53 || bin[3] != 0x1A {
            return Err(RomError::InvalidMagic);
        }
        let prg_rom_cnt = bin[4];
        let chr_rom_cnt = bin[5];
        let flags6 = bin[6];
        let flags7 = bin[7];
        let has_trainer = flags6 & 0x04 != 0;
        let start: usize = if has_trainer { HEADER_SIZE + TRAINER_SIZE } else { HEADER_SIZE };
        if bin.len() < start || bin.len() - start < prg_rom_cnt as usize * PRG_PAGE_SIZE {
            return Err(RomError::Truncated);
        }
        let mut trainer = [0u8; 0x200];
        if has_trainer {
            let mut i: usize = 0;
            while i < TRAINER_SIZE
                invariant
                    i <= TRAINER_SIZE,
                    bin@.len() >= HEADER_SIZE + TRAINER_SIZE,
                    forall|j: int| 0 <= j < i ==> trainer@[j] == bin@[HEADER_SIZE + j],
                decreases TRAINER_SIZE - i,
            {
                trainer[i] = bin[HEADER_SIZE + i];
                i = i + 1;
            }
            assert(trainer@ =~= bin@.subrange(16, 16 + TRAINER_SIZE));
        } else {
            assert(trainer@ =~= Seq::new(TRAINER_SIZE as nat, |i: int| 0u8));
        }
        let mut prg_rom: Vec<[u8; 0x4000]> = Vec::new();
        let mut k: usize = 0;
        while k < prg_rom_cnt as usize
            invariant
                k <= prg_rom_cnt,
                prg_rom_cnt == bin@[4],
                start == prg_start(bin@),
                bin@.len() >= prg_end(bin@),
                prg_rom@.len() == k,
                forall|i: int| 0 <= i < k ==> #[trigger] prg_rom@[i]@ == prg_page(bin@, i),
            decreases prg_rom_cnt - k,
        {
            let base: usize = start + k * PRG_PAGE_SIZE;
            let mut page = [0u8; 0x4000];
            let mut j: usize = 0;
            while j < PRG_PAGE_SIZE
                invariant
                    j <= PRG_PAGE_SIZE,
                    base == prg_start(bin@) + k * PRG_PAGE_SIZE,
                    k < prg_rom_cnt,
                    prg_rom_cnt == bin@[4],
                    bin@.len() >= prg_end(bin@),
                    forall|i: int| 0 <= i < j ==> page@[i] == bin@[base + i],
                decreases PRG_PAGE_SIZE - j,
            {
                assert(base + j < prg_end(bin@)) by (nonlinear_arith)
                    requires
                        base == prg_start(bin@) + k * PRG_PAGE_SIZE,
                        k + 1 <= bin@[4],
                        j < PRG_PAGE_SIZE,
                        prg_end(bin@) == prg_start(bin@) + bin@[4] * PRG_PAGE_SIZE,
                ;
                page[j] = bin[base + j];
                j = j + 1;
            }
            assert(page@ =~= prg_page(bin@, k as int));
            prg_rom.push(page);
            k = k + 1;
        }
        let magic = [bin[0], bin[1], bin[2], bin[3]];
        let zeros = [bin[11], bin[12], bin[13], bin[14], bin[15]];
        assert(magic@ =~= bin@.subrange(0, 4));
        assert(zeros@ =~= bin@.subrange(11, 16));
        Ok(INesFile {
            magic,
            has_trainer,
            mapper: (flags7 & 0xF0) | (flags6 >> 4u8),
            prg_rom_cnt,
            prg_rom_size: prg_rom_cnt as u32 * 16384,
            chr_rom_size: chr_rom_cnt as u32 * 8192,
            prg_ram_size: bin[8] as u32 * 8192,
            flags6,
            flags7,
            flags9: bin[9],
            flags10: bin[10],
            zeros,
            trainer,
            prg_rom,
        })
    }
}

} // verus!
