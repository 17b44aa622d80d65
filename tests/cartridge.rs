use futilenes::mapper::Mapper;
use futilenes::memory::MemMap;
use futilenes::rom::{INesFile, RomError};

fn header(pages: u8, flags6: u8, flags7: u8) -> Vec<u8> {
    vec![0x4E, 0x45, 0x53, 0x1A, pages, 2, flags6, flags7, 1, 0, 0, 0, 0, 0, 0, 0]
}

fn page(fill: u8) -> Vec<u8> {
    let mut p = vec![fill; 0x4000];
    p[0] = fill ^ 0xFF;
    p
}

#[test]
fn load_reads_header_fields() {
    let mut bin = header(1, 0x10, 0x20);
    bin.extend(page(0x11));
    let rom = INesFile::load(bin).unwrap();
    assert_eq!(rom.magic, [0x4E, 0x45, 0x53, 0x1A]);
    assert_eq!(rom.prg_rom_cnt, 1);
    assert_eq!(rom.prg_rom_size, 16384);
    assert_eq!(rom.chr_rom_size, 16384);
    assert_eq!(rom.prg_ram_size, 8192);
    assert_eq!(rom.flags6, 0x10);
    assert_eq!(rom.flags7, 0x20);
    assert_eq!(rom.mapper, 0x21);
    assert!(!rom.has_trainer);
    assert_eq!(rom.prg_rom.len(), 1);
    assert_eq!(rom.prg_rom[0][0], 0xEE);
    assert_eq!(rom.prg_rom[0][1], 0x11);
}

#[test]
fn load_skips_trainer() {
    let mut bin = header(1, 0x04, 0);
    let trainer: Vec<u8> = (0..0x200).map(|i| (i % 251) as u8).collect();
    bin.extend(&trainer);
    bin.extend(page(0x22));
    let rom = INesFile::load(bin).unwrap();
    assert!(rom.has_trainer);
    assert_eq!(rom.trainer.to_vec(), trainer);
    assert_eq!(rom.prg_rom[0][0], 0xDD);
    assert_eq!(rom.prg_rom[0][0x3FFF], 0x22);
}

#[test]
fn load_rejects_bad_magic() {
    let mut bin = header(1, 0, 0);
    bin[3] = 0x1B;
    bin.extend(page(0));
    assert_eq!(INesFile::load(bin).err(), Some(RomError::InvalidMagic));
}

#[test]
fn load_rejects_short_header() {
    assert_eq!(INesFile::load(vec![0x4E, 0x45, 0x53]).err(), Some(RomError::Truncated));
    assert_eq!(INesFile::load(Vec::new()).err(), Some(RomError::Truncated));
}

#[test]
fn load_rejects_missing_page() {
    let mut bin = header(2, 0, 0);
    bin.extend(page(0));
    bin.extend(vec![0u8; 0x3FFF]);
    assert_eq!(INesFile::load(bin).err(), Some(RomError::Truncated));
}

#[test]
fn load_rejects_missing_trainer() {
    let mut bin = header(0, 0x04, 0);
    bin.extend(vec![0u8; 0x100]);
    assert_eq!(INesFile::load(bin).err(), Some(RomError::Truncated));
}

#[test]
fn load_accepts_image_without_pages() {
    let rom = INesFile::load(header(0, 0, 0)).unwrap();
    assert_eq!(rom.prg_rom.len(), 0);
}

#[test]
fn mapper_single_page_is_mirrored() {
    let mut bin = header(1, 0, 0);
    bin.extend(page(0x33));
    let mut m = Mapper::new(INesFile::load(bin).unwrap());
    assert_eq!(m.read(0x8000), 0);
    m.load();
    assert_eq!(m.read(0x8000), 0xCC);
    assert_eq!(m.read(0xC000), 0xCC);
    assert_eq!(m.read(0xBFFF), 0x33);
    assert_eq!(m.read(0xFFFF), 0x33);
}

#[test]
fn mapper_two_pages_lower_and_upper() {
    let mut bin = header(2, 0, 0);
    bin.extend(page(0x01));
    bin.extend(page(0x02));
    let mut m = Mapper::new(INesFile::load(bin).unwrap());
    m.load();
    assert_eq!(m.read(0x8000), 0xFE);
    assert_eq!(m.read(0x8001), 0x01);
    assert_eq!(m.read(0xC000), 0xFD);
    assert_eq!(m.read(0xC001), 0x02);
}

#[test]
fn mapper_other_than_zero_loads_nothing() {
    let mut bin = header(1, 0x10, 0);
    bin.extend(page(0x44));
    let mut m = Mapper::new(INesFile::load(bin).unwrap());
    m.load();
    assert_eq!(m.read(0x8001), 0);
    assert_eq!(m.read(0xC001), 0);
}

fn memory() -> MemMap {
    let mut bin = header(2, 0, 0);
    let mut lo = page(0x01);
    lo[0x0010] = 0x34;
    lo[0x0011] = 0x12;
    bin.extend(lo);
    let mut hi = page(0x02);
    hi[0x3FFF] = 0xAB;
    bin.extend(hi);
    let mut m = Mapper::new(INesFile::load(bin).unwrap());
    m.load();
    MemMap::new(m)
}

#[test]
fn ram_is_mirrored_every_2k() {
    let mut mem = memory();
    mem.write(0x0801, 0x5A);
    assert_eq!(mem.read(0x0001), 0x5A);
    assert_eq!(mem.read(0x1001), 0x5A);
    assert_eq!(mem.read(0x1801), 0x5A);
    mem.write(0x1FFF, 0x77);
    assert_eq!(mem.read(0x07FF), 0x77);
}

#[test]
fn unmapped_reads_zero_and_rom_ignores_writes() {
    let mut mem = memory();
    mem.write(0x2000, 0x99);
    mem.write(0x6000, 0x99);
    assert_eq!(mem.read(0x2000), 0);
    assert_eq!(mem.read(0x7FFF), 0);
    mem.write(0x8001, 0x99);
    assert_eq!(mem.read(0x8001), 0x01);
}

#[test]
fn readw_is_little_endian() {
    let mut mem = memory();
    assert_eq!(mem.readw(0x8010), 0x1234);
    mem.write(0x00FF, 0x11);
    mem.write(0x0100, 0x22);
    assert_eq!(mem.readw(0x00FF), 0x2211);
    // The word at 0xFFFF takes its high byte from 0x0000.
    mem.write(0x0000, 0x66);
    assert_eq!(mem.readw(0xFFFF), 0x66AB);
}

#[test]
fn readw_zp_wraps_within_page_zero() {
    let mut mem = memory();
    mem.write(0x00FF, 0x11);
    mem.write(0x0000, 0x33);
    mem.write(0x0100, 0x22);
    assert_eq!(mem.readw_zp(0x00FF), 0x3311);
    mem.write(0x0010, 0x44);
    mem.write(0x0011, 0x55);
    assert_eq!(mem.readw_zp(0x0010), 0x5544);
}
