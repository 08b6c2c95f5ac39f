//! Bus and timer behaviour through the `Memory` interface: region
//! round trips, echo aliasing, register masks, unused addresses, and the
//! falling-edge timer.

use dmg_core::gb::mem::Memory;

#[test]
fn echo_ram_aliases_wram() {
    let mut m = Memory::new();
    m.write(0xC123, 0x5A);
    assert_eq!(m.read(0xE123), 0x5A);
    m.write(0xE000, 0x77);
    assert_eq!(m.read(0xC000), 0x77);
    assert_eq!(m.read(0xE000), 0x77);
}

#[test]
fn writable_regions_roundtrip() {
    let mut m = Memory::new();
    let cases: [(u16, u8); 7] = [
        (0x8000, 0x11), // VRAM (readable in mode 2)
        (0x9FFF, 0x22),
        (0xA123, 0x33), // SRAM
        (0xC000, 0x44), // WRAM
        (0xDFFF, 0x55),
        (0xFF80, 0x66), // HRAM
        (0xFFFE, 0x77),
    ];
    for (a, v) in cases {
        m.write(a, v);
        assert_eq!(m.read(a), v);
    }
}

#[test]
fn oam_reads_blocked_in_mode_two() {
    // The PPU register file powers on in mode 2, which gates OAM reads.
    let mut m = Memory::new();
    m.write(0xFE00, 0x99);
    assert_eq!(m.read(0xFE00), 0xFF);
}

#[test]
fn rom_is_read_only() {
    let mut m = Memory::new();
    assert!(m.load_rom(&[0xAB, 0xCD]));
    m.write(0x0000, 0x00);
    assert_eq!(m.read(0x0000), 0xAB);
    assert_eq!(m.read(0x0001), 0xCD);
    assert_eq!(m.read(0x0002), 0x00);
}

#[test]
fn rom_too_large_rejected() {
    let mut m = Memory::new();
    assert!(m.load_rom(&vec![0x12u8; 0x8000]));
    assert!(!m.load_rom(&vec![0u8; 0x8001]));
    // The rejected image changed nothing.
    assert_eq!(m.read(0x7FFF), 0x12);
}

#[test]
fn prohibited_range_reads_zero() {
    let mut m = Memory::new();
    m.write(0xFEA0, 0x42);
    assert_eq!(m.read(0xFEA0), 0);
    assert_eq!(m.read(0xFEFF), 0);
}

#[test]
fn unused_addresses_read_ff_despite_writes() {
    let mut m = Memory::new();
    let addrs: [u16; 6] = [0xFF03, 0xFF08, 0xFF15, 0xFF1F, 0xFF4C, 0xFF6F];
    for a in addrs {
        m.write(a, 0x00);
        assert_eq!(m.read(a), 0xFF);
    }
}

#[test]
fn if_upper_bits_always_read_one() {
    let mut m = Memory::new();
    assert_eq!(m.read(0xFF0F) & 0xE0, 0xE0);
    m.write(0xFF0F, 0x00);
    assert_eq!(m.read(0xFF0F), 0xE0);
    m.write(0xFF0F, 0x1F);
    assert_eq!(m.read(0xFF0F), 0xFF);
}

#[test]
fn tac_upper_bits_always_read_one() {
    let mut m = Memory::new();
    assert_eq!(m.read(0xFF07) & 0xF8, 0xF8);
    m.write(0xFF07, 0x05);
    assert_eq!(m.read(0xFF07), 0xFD);
}

#[test]
fn ie_stores_five_bits() {
    let mut m = Memory::new();
    m.write(0xFFFF, 0xFF);
    assert_eq!(m.read(0xFFFF), 0x1F);
}

#[test]
fn serial_reads_ff() {
    let mut m = Memory::new();
    assert_eq!(m.read(0xFF01), 0xFF);
    assert_eq!(m.read(0xFF02), 0xFF);
}

#[test]
fn div_reads_clock_high_byte_and_write_clears() {
    let mut m = Memory::new();
    // The system clock powers on at 0xAB00.
    assert_eq!(m.read(0xFF04), 0xAB);
    m.write(0xFF04, 0x77);
    assert_eq!(m.read(0xFF04), 0x00);
}

#[test]
fn joypad_select_groups() {
    let mut m = Memory::new();
    // Power-on: both groups selected, nothing pressed.
    assert_eq!(m.read(0xFF00), 0xCF);
    m.write(0xFF00, 0x30); // neither group
    assert_eq!(m.read(0xFF00), 0xFF);
    m.write(0xFF00, 0x20); // D-pad group (bit 4 low)
    assert_eq!(m.read(0xFF00), 0xEF);
    m.write(0xFF00, 0x10); // buttons group (bit 5 low)
    assert_eq!(m.read(0xFF00), 0xDF);
}

#[test]
fn timer_increments_on_falling_edge() {
    let mut m = Memory::new();
    // TAC=0x05: enabled, clock bit 3 selected -> one increment per four
    // machine cycles. The clock starts at 0xAB00, so bit 3 rises at the
    // second cycle and falls at the fourth.
    m.write(0xFF07, 0x05);
    for _ in 0..3 {
        m.check_overflow();
        m.inc_clk();
    }
    assert_eq!(m.read(0xFF05), 0);
    m.check_overflow();
    m.inc_clk();
    assert_eq!(m.read(0xFF05), 1);
}

#[test]
fn timer_overflow_sets_if_bit_and_reloads_tma() {
    let mut m = Memory::new();
    m.write(0xFF07, 0x05);
    m.write(0xFF05, 0xFF);
    m.write(0xFF0F, 0x00);
    // Four cycles to the falling edge: TIMA wraps to 0 with the overflow
    // latched; the following cycle reloads TMA and requests the interrupt.
    for _ in 0..4 {
        m.check_overflow();
        m.inc_clk();
    }
    assert_eq!(m.read(0xFF05), 0x00);
    assert_eq!(m.read(0xFF0F) & 0x04, 0x00);
    m.check_overflow();
    assert_eq!(m.read(0xFF05), m.read(0xFF06));
    assert_eq!(m.read(0xFF0F) & 0x04, 0x04);
    // Running on to sixteen cycles keeps the request latched.
    for _ in 0..12 {
        m.check_overflow();
        m.inc_clk();
    }
    assert_eq!(m.read(0xFF0F) & 0x04, 0x04);
}

#[test]
fn tima_write_cancels_pending_overflow() {
    let mut m = Memory::new();
    m.write(0xFF07, 0x05);
    m.write(0xFF05, 0xFF);
    m.write(0xFF0F, 0x00);
    for _ in 0..4 {
        m.check_overflow();
        m.inc_clk();
    }
    // The overflow is latched but not yet resolved; writing TIMA cancels it.
    m.write(0xFF05, 0x42);
    m.check_overflow();
    assert_eq!(m.read(0xFF05), 0x42);
    assert_eq!(m.read(0xFF0F) & 0x04, 0x00);
}

#[test]
fn div_write_quirk_increments_tima() {
    let mut m = Memory::new();
    m.write(0xFF07, 0x05);
    m.write(0xFF05, 0x07);
    // Two cycles from 0xAB00 put the clock at 0xAB08: bit 3 high, AND=1.
    m.check_overflow();
    m.inc_clk();
    m.check_overflow();
    m.inc_clk();
    assert_eq!(m.read(0xFF05), 0x07);
    // Clearing DIV drops the selected bit: a falling edge, so TIMA steps.
    m.write(0xFF04, 0x00);
    assert_eq!(m.read(0xFF05), 0x08);
}
