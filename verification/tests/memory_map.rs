//! The memory map: loading, the region table, bank switching, the echo
//! region, the synthesized STAT read, DIV, OAM DMA and the joypad latch.

use mcugb::memory::{CartError, Memory};

fn rom_32k() -> Vec<u8> {
    vec![0u8; 0x8000]
}

fn rom_1m() -> Vec<u8> {
    let mut rom = vec![0u8; 0x100000];
    rom[0x148] = 5;
    rom
}

#[test]
fn load_rejects_short_image() {
    assert_eq!(Memory::with_rom(vec![0u8; 0x100]).err(), Some(CartError::Truncated));
}

#[test]
fn load_rejects_reserved_size_byte() {
    let mut rom = rom_32k();
    rom[0x148] = 3;
    assert_eq!(Memory::with_rom(rom).err(), Some(CartError::UnsupportedRomSize));
}

#[test]
fn load_rejects_truncated_1mib() {
    let mut rom = rom_32k();
    rom[0x148] = 5;
    assert_eq!(Memory::with_rom(rom).err(), Some(CartError::Truncated));
}

#[test]
fn rom_reads_back() {
    let mut rom = rom_32k();
    rom[0x1234] = 0x77;
    rom[0x4567] = 0x88;
    let mem = Memory::with_rom(rom).unwrap();
    assert_eq!(mem.read8(0x1234), 0x77);
    // bank 1 is mapped at 0x4000 on a two-bank cartridge
    assert_eq!(mem.read8(0x4567), 0x88);
}

#[test]
fn read16_is_the_little_endian_byte_pair() {
    let mut mem = Memory::with_rom(rom_32k()).unwrap();
    mem.write8(0xc000, 0x34);
    mem.write8(0xc001, 0x12);
    assert_eq!(mem.read16(0xc000), 0x1234);
    for a in [0x8000u16, 0xc123, 0xfe00, 0xff80, 0xff40, 0xfffe] {
        let lo = mem.read8(a) as u16;
        let hi = mem.read8(a.wrapping_add(1)) as u16;
        assert_eq!(mem.read16(a), lo | (hi << 8));
    }
}

#[test]
fn write16_reads_back() {
    let mut mem = Memory::with_rom(rom_32k()).unwrap();
    for a in [0x8010u16, 0xc123, 0xdffe, 0xfe20, 0xff80] {
        mem.write16(a, 0xbeef);
        assert_eq!(mem.read16(a), 0xbeef);
    }
}

#[test]
fn echo_region_mirrors_work_ram() {
    let mut mem = Memory::with_rom(rom_32k()).unwrap();
    mem.write8(0xd0a5, 0x42);
    assert_eq!(mem.read8(0xe0a5), 0x42);
    // writes into the echo region are rejected
    mem.write8(0xe0a5, 0x99);
    assert_eq!(mem.read8(0xd0a5), 0x42);
    assert_eq!(mem.read8(0xe0a5), 0x42);
}

#[test]
fn rom_only_cart_ignores_bank_writes() {
    let mut mem = Memory::with_rom(rom_32k()).unwrap();
    mem.write8(0x2000, 2);
    assert_eq!(mem.read8(0x4000), 0);
}

#[test]
fn bank_select_maps_banks() {
    let mut rom = rom_1m();
    rom[0x4000] = 0xaa;  // bank 1
    rom[0x8000] = 0xbb;  // bank 2
    rom[0x4000 * 63] = 0xcc;  // bank 63
    let mut mem = Memory::with_rom(rom).unwrap();
    assert_eq!(mem.read8(0x4000), 0xaa);
    mem.write8(0x2000, 2);
    assert_eq!(mem.read8(0x4000), 0xbb);
    mem.write8(0x2000, 63);
    assert_eq!(mem.read8(0x4000), 0xcc);
}

#[test]
fn bank_zero_behaves_as_bank_one() {
    let mut rom = rom_1m();
    rom[0x4000] = 0xaa;
    rom[0x8000] = 0xbb;
    let mut mem = Memory::with_rom(rom).unwrap();
    mem.write8(0x2000, 2);
    assert_eq!(mem.read8(0x4000), 0xbb);
    mem.write8(0x2000, 0);
    assert_eq!(mem.read8(0x4000), 0xaa);
}

#[test]
fn div_write_clears_it() {
    let mut mem = Memory::with_rom(rom_32k()).unwrap();
    mem.data[0xff04] = 0x55;
    mem.write8(0xff04, 0x77);
    assert_eq!(mem.read8(0xff04), 0);
}

#[test]
fn ly_is_read_only_on_the_bus() {
    let mut mem = Memory::with_rom(rom_32k()).unwrap();
    mem.write8(0xff44, 77);
    assert_eq!(mem.read8(0xff44), 0);
}

#[test]
fn stat_read_synthesizes_bits() {
    let mut mem = Memory::with_rom(rom_32k()).unwrap();
    // LY == LYC (both zero): bit 7 high and the coincidence bit set
    assert_eq!(mem.read8(0xff41), 0x84);
    mem.data[0xff44] = 5;
    assert_eq!(mem.read8(0xff41), 0x80);
    // the stored mode bits come through
    mem.data[0xff41] = 0x03;
    assert_eq!(mem.read8(0xff41), 0x83);
}

#[test]
fn dma_copies_into_oam() {
    let mut mem = Memory::with_rom(rom_32k()).unwrap();
    for i in 0..0xa0u16 {
        mem.write8(0xc000 + i, 0x5a);
    }
    mem.write8(0xff46, 0xc0);
    for i in 0..0xa0u16 {
        assert_eq!(mem.read8(0xfe00 + i), 0x5a);
    }
    assert_eq!(mem.read8(0xff46), 0xc0);
}

#[test]
fn joypad_multiplex_latches_selected_row() {
    let mut mem = Memory::with_rom(rom_32k()).unwrap();
    mem.joypad_action = 0x0d;
    mem.joypad_direction = 0x0f;
    mem.write8(0xff00, 0x10);
    assert_eq!(mem.read8(0xff00), 0xdd);
    mem.write8(0xff00, 0x20);
    assert_eq!(mem.read8(0xff00), 0xef);
}
