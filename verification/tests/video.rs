//! The PPU register file: power-on values, the STAT write mask, LY being
//! read-only, and mode-gated VRAM/OAM access.

use dmg_core::gb::ppu::Video;

#[test]
fn power_on_register_values() {
    let mut v = Video::new();
    assert_eq!(v.read(0xFF40), 0x91); // LCDC
    assert_eq!(v.read(0xFF41), 0x85); // STAT
    assert_eq!(v.read(0xFF42), 0x00); // SCY
    assert_eq!(v.read(0xFF43), 0x00); // SCX
    assert_eq!(v.read(0xFF44), 0x00); // LY
    assert_eq!(v.read(0xFF45), 0x00); // LYC
    assert_eq!(v.read(0xFF47), 0xFC); // BGP
    assert_eq!(v.read(0xFF48), 0xFF); // OBP0
    assert_eq!(v.read(0xFF49), 0xFF); // OBP1
    assert_eq!(v.read(0xFF4A), 0x00); // WY
    assert_eq!(v.read(0xFF4B), 0x00); // WX
}

#[test]
fn plain_registers_roundtrip() {
    let mut v = Video::new();
    let cases: [(u16, u8); 8] = [
        (0xFF40, 0x13),
        (0xFF42, 0x21),
        (0xFF43, 0x34),
        (0xFF45, 0x55),
        (0xFF47, 0xE4),
        (0xFF48, 0xD2),
        (0xFF49, 0x1B),
        (0xFF4A, 0x70),
    ];
    for (a, d) in cases {
        v.write(a, d);
        assert_eq!(v.read(a), d);
    }
}

#[test]
fn stat_write_keeps_low_bits_and_forces_bit_seven() {
    let mut v = Video::new();
    // Power-on STAT is 0x85: its low three bits (5) are read-only.
    v.write(0xFF41, 0xFF);
    assert_eq!(v.read(0xFF41), 0xFD);
    v.write(0xFF41, 0x00);
    assert_eq!(v.read(0xFF41), 0x85);
}

#[test]
fn ly_is_read_only() {
    let mut v = Video::new();
    v.write(0xFF44, 0x50);
    assert_eq!(v.read(0xFF44), 0x00);
}

#[test]
fn dma_register_reads_ff_here() {
    let mut v = Video::new();
    v.write(0xFF46, 0x12);
    assert_eq!(v.read(0xFF46), 0xFF);
}

#[test]
fn vram_roundtrips_while_oam_is_gated() {
    // The register file powers on in mode 2: VRAM is accessible, OAM reads
    // are blocked.
    let mut v = Video::new();
    v.write(0x8000, 0x3C);
    v.write(0x9FFF, 0xA7);
    assert_eq!(v.read(0x8000), 0x3C);
    assert_eq!(v.read(0x9FFF), 0xA7);
    v.write(0xFE00, 0x66);
    assert_eq!(v.read(0xFE00), 0xFF);
}

#[test]
fn non_ppu_addresses_read_ff() {
    let mut v = Video::new();
    v.write(0x0000, 0x01);
    v.write(0xC000, 0x02);
    assert_eq!(v.read(0x0000), 0xFF);
    assert_eq!(v.read(0xC000), 0xFF);
    assert_eq!(v.read(0xFF4C), 0xFF);
}

#[test]
fn tick_changes_nothing_visible() {
    let mut v = Video::new();
    v.write(0x8123, 0x42);
    v.tick();
    assert_eq!(v.read(0x8123), 0x42);
    assert_eq!(v.read(0xFF40), 0x91);
}
