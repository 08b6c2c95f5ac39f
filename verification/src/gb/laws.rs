//! Laws of the machine: properties that hold of every state the emulator
//! can be in, stated over the mathematical model and proved once and for
//! all. Together with the contract of `Gameboy::tick` (one call equals one
//! `step_tick`, consuming `tick_cycles` machine cycles) they pin down the
//! register-file invariants, the bus masks, echo-RAM aliasing, write/read
//! round trips, stack round trips, and the ALU involutions.

use vstd::prelude::*;

use crate::gb::arith::w8;
use crate::gb::mem::{unused_addr, MemView};
use crate::gb::ppu::VideoView;
use crate::gb::step::{add8_val, rlc_val, rrc_val, sub8_val, swap_val, GbView};

verus! {

/// In every well-formed machine state — `Gameboy::tick` ensures one — the
/// low nibble of F is zero.
pub proof fn lemma_f_low_nibble_zero(s: GbView)
    requires
        s.wf(),
    ensures
        s.f & 0x0F == 0,
{
    let f = s.f;
    assert(f % 16 == 0 ==> f & 0x0F == 0) by (bit_vector);
}

/// The upper three bits of the interrupt-flag register always read as 1.
pub proof fn lemma_if_upper_bits(m: MemView)
    requires
        m.wf(),
    ensures
        m.read(0xFF0F) & 0xE0 == 0xE0,
{
    reveal(MemView::read);
    reveal(MemView::io_read);
    let r = m.if_reg;
    assert(r >= 0xE0 ==> r & 0xE0 == 0xE0) by (bit_vector);
}

/// The upper five bits of the timer-control register always read as 1.
pub proof fn lemma_tac_upper_bits(m: MemView)
    requires
        m.wf(),
    ensures
        m.read(0xFF07) & 0xF8 == 0xF8,
{
    reveal(MemView::read);
    reveal(MemView::io_read);
    let r = m.tac;
    assert(r >= 0xF8 ==> r & 0xF8 == 0xF8) by (bit_vector);
}

/// An unused address reads 0xFF in every state — irrespective of prior
/// writes, since a write there changes nothing.
pub proof fn lemma_unused_address(m: MemView, addr: u16, v: u8)
    requires
        unused_addr(addr),
    ensures
        m.read(addr) == 0xFF,
        m.write(addr, v) == m,
{
    reveal(MemView::read);
    reveal(MemView::write);
}

/// Echo RAM aliases WRAM: for every offset below 0x1E00 the echo address
/// reads the same byte as its WRAM counterpart.
pub proof fn lemma_echo_alias(m: MemView, k: u16)
    requires
        m.wf(),
        k < 0x1E00,
    ensures
        m.read((0xE000 + k) as u16) == m.read((0xC000 + k) as u16),
{
    reveal(MemView::read);
}

/// Writes preserve well-formedness of the bus model.
pub proof fn lemma_write_wf(m: MemView, addr: u16, v: u8)
    requires
        m.wf(),
    ensures
        m.write(addr, v).wf(),
{
    reveal(MemView::write);
    reveal(MemView::io_write);
    reveal(MemView::detect_edge);
    reveal(VideoView::write);
}

/// Plainly backed writable addresses: VRAM while readable, SRAM, WRAM and
/// its echo, OAM while readable, HRAM, and the unmasked I/O registers.
pub open spec fn plain_backed(m: MemView, addr: u16) -> bool {
    ||| (0x8000 <= addr && addr < 0xA000 && m.video.mode != 3)
    ||| (0xA000 <= addr && addr < 0xFE00)
    ||| (0xFE00 <= addr && addr < 0xFEA0 && m.video.mode != 2 && m.video.mode != 3)
    ||| (0xFF80 <= addr && addr < 0xFFFF)
    ||| addr == 0xFF05
    ||| addr == 0xFF06
    ||| addr == 0xFF40
    ||| (0xFF42 <= addr && addr <= 0xFF43)
    ||| addr == 0xFF45
    ||| (0xFF47 <= addr && addr <= 0xFF4B)
}

/// Writing a plainly backed address and reading it back returns the byte
/// written.
pub proof fn lemma_write_read(m: MemView, addr: u16, v: u8)
    requires
        m.wf(),
        plain_backed(m, addr),
    ensures
        m.write(addr, v).read(addr) == v,
{
    reveal(MemView::read);
    reveal(MemView::write);
    reveal(MemView::io_read);
    reveal(MemView::io_write);
    reveal(VideoView::read);
    reveal(VideoView::write);
}

/// The masked registers read back the written byte under their masks: IF
/// keeps five bits under three ones, TAC three bits under five ones, IE
/// its five meaningful bits.
pub proof fn lemma_write_read_masked(m: MemView, v: u8)
    requires
        m.wf(),
    ensures
        m.write(0xFF0F, v).read(0xFF0F) == 0xE0 + v % 0x20,
        m.write(0xFF07, v).read(0xFF07) == 0xF8 + v % 8,
        m.write(0xFFFF, v).read(0xFFFF) == v % 0x20,
{
    reveal(MemView::read);
    reveal(MemView::write);
    reveal(MemView::io_read);
    reveal(MemView::io_write);
}

/// Writing DIV clears the 16-bit system clock; if the selected timer bit
/// was feeding a 1 into the edge detector (TAC written as 0x05: enabled,
/// bit 3 selected, and the stored AND bit set), the clear is a falling
/// edge and TIMA increments at once — wrapping into the overflow latch
/// when it stood at 0xFF.
pub proof fn lemma_div_write_quirk(m: MemView, v: u8)
    requires
        m.wf(),
        m.tac % 8 == 5,
        m.timer_and,
    ensures
        m.write(0xFF04, v).sys_clock == 0,
        m.write(0xFF04, v).tima == w8(m.tima + 1),
        m.tima == 0xFF ==> m.write(0xFF04, v).tima_overflowed,
{
    reveal(MemView::write);
    reveal(MemView::io_write);
    reveal(MemView::detect_edge);
}

/// Addresses where a pushed stack byte is stored and read back verbatim:
/// SRAM, WRAM and its echo, and HRAM.
pub open spec fn stack_ram(addr: u16) -> bool {
    (0xA000 <= addr && addr < 0xFE00) || (0xFF80 <= addr && addr < 0xFFFF)
}

/// A machine cycle of the clock changes only the timer state: the RAM
/// regions, the PPU and the stored registers other than TIMA/IF keep
/// their contents, and reads of stack RAM are unchanged.
proof fn lemma_cycle_keeps_ram(m: MemView)
    ensures
        ({
            let m2 = m.check_overflow().inc_clk();
            m2.rom == m.rom && m2.sram == m.sram && m2.wram == m.wram && m2.hram == m.hram
                && m2.video == m.video && m2.ie_reg == m.ie_reg && m2.serial == m.serial
                && m2.joypad == m.joypad && m2.joypad_buttons == m.joypad_buttons
                && m2.joypad_dpad == m.joypad_dpad && (m.wf() ==> m2.wf())
        }),
{
    reveal(MemView::check_overflow);
    reveal(MemView::inc_clk);
    reveal(MemView::detect_edge);
}

/// A write to stack RAM lands in the backing array and changes nothing
/// else of the RAM regions; a later read of any stack-RAM address sees the
/// new byte at that address and the old byte elsewhere.
proof fn lemma_stack_write(m: MemView, addr: u16, v: u8, other: u16)
    requires
        m.wf(),
        stack_ram(addr),
        stack_ram(other),
    ensures
        m.write(addr, v).wf(),
        m.write(addr, v).read(addr) == v,
        ram_index(other) != ram_index(addr) ==> m.write(addr, v).read(other) == m.read(other),
{
    reveal(MemView::read);
    reveal(MemView::write);
}

/// The backing cell of a stack-RAM address: echo RAM shares its WRAM
/// cell, and the regions are kept apart.
pub open spec fn ram_index(addr: u16) -> int {
    if 0xA000 <= addr && addr < 0xC000 {
        addr - 0xA000
    } else if 0xC000 <= addr && addr < 0xE000 {
        0x10000 + (addr - 0xC000)
    } else if 0xE000 <= addr && addr < 0xFE00 {
        0x10000 + (addr - 0xE000)
    } else {
        0x20000 + (addr - 0xFF80)
    }
}

/// Pushing a 16-bit value and popping it returns the value, with SP
/// restored and the CPU registers untouched, whenever the two stack bytes
/// land in plain RAM (SRAM, WRAM or its echo, HRAM).
pub proof fn lemma_push_pop(s: GbView, x: u16)
    requires
        s.wf(),
        stack_ram(crate::gb::arith::w16(s.sp - 1)),
        stack_ram(crate::gb::arith::w16(s.sp - 2)),
    ensures
        s.push_s(x).pop_s().1 == x,
        s.push_s(x).pop_s().0.sp == s.sp,
        s.push_s(x).pop_s().0.a == s.a && s.push_s(x).pop_s().0.f == s.f,
{
    let hi_addr = crate::gb::arith::w16(s.sp - 1);
    let lo_addr = crate::gb::arith::w16(s.sp - 2);
    let hi = (x / 0x100) as u8;
    let lo = (x % 0x100) as u8;

    // The push: one delay cycle, then the two stores.
    let t1 = s.m_ticked();
    lemma_cycle_keeps_ram(s.mem);
    let t2 = GbView { sp: hi_addr, ..t1 };
    let t3 = t2.write_mem_s(t2.sp, hi);
    lemma_cycle_keeps_ram(t2.mem);
    lemma_stack_write(t2.mem.check_overflow().inc_clk(), hi_addr, hi, hi_addr);
    let t4 = GbView { sp: lo_addr, ..t3 };
    let t5 = t4.write_mem_s(t4.sp, lo);
    lemma_cycle_keeps_ram(t4.mem);
    lemma_stack_write(t4.mem.check_overflow().inc_clk(), lo_addr, lo, lo_addr);
    lemma_stack_write(t4.mem.check_overflow().inc_clk(), lo_addr, lo, hi_addr);
    assert(s.push_s(x) == t5);
    assert(t5.mem.read(lo_addr) == lo);
    assert(ram_index(hi_addr) != ram_index(lo_addr));
    assert(t4.mem.read(hi_addr) == hi);
    assert(t4.mem.check_overflow().inc_clk().read(hi_addr) == t4.mem.read(hi_addr)) by {
        reveal(MemView::read);
        lemma_cycle_keeps_ram(t4.mem);
    }
    assert(t5.mem.read(hi_addr) == hi);
    assert(t5.mem.wf());

    // The pop: two loads, SP climbing back.
    lemma_cycle_keeps_ram(t5.mem);
    let u1 = t5.m_ticked();
    assert(u1.mem.read(lo_addr) == lo && u1.mem.read(hi_addr) == hi) by {
        reveal(MemView::read);
        lemma_cycle_keeps_ram(t5.mem);
    }
    let u2 = GbView { sp: crate::gb::arith::w16(u1.sp + 1), ..u1 };
    assert(u2.sp == hi_addr);
    let u3 = u2.m_ticked();
    assert(u3.mem.read(hi_addr) == hi) by {
        reveal(MemView::read);
        lemma_cycle_keeps_ram(u2.mem);
    }
    let u4 = GbView { sp: crate::gb::arith::w16(u3.sp + 1), ..u3 };
    assert(u4.sp == s.sp);
    assert(s.push_s(x).pop_s().1 == (hi * 0x100 + lo) as u16);
    assert((hi * 0x100 + lo) as u16 == x);
}

/// SWAP applied twice is the identity on the value.
pub proof fn lemma_swap_involution(v: u8)
    ensures
        swap_val(swap_val(v)) == v,
{
}

/// CPL applied twice is the identity on the accumulator value.
pub proof fn lemma_cpl_involution(v: u8)
    ensures
        (255 - (255 - v) as u8) as u8 == v,
{
}

/// RLC applied eight times is the identity on the value.
pub proof fn lemma_rlc_eight_times(v: u8)
    ensures
        rlc_val(rlc_val(rlc_val(rlc_val(rlc_val(rlc_val(rlc_val(rlc_val(v)))))))) == v,
{
    let r1 = rlc_val(v);
    let r2 = rlc_val(r1);
    let r3 = rlc_val(r2);
    let r4 = rlc_val(r3);
    let r5 = rlc_val(r4);
    let r6 = rlc_val(r5);
    let r7 = rlc_val(r6);
    let r8 = rlc_val(r7);
    assert(r8 == v) by (bit_vector)
        requires
            r1 == ((v % 0x80) * 2 + v / 0x80) as u8,
            r2 == ((r1 % 0x80) * 2 + r1 / 0x80) as u8,
            r3 == ((r2 % 0x80) * 2 + r2 / 0x80) as u8,
            r4 == ((r3 % 0x80) * 2 + r3 / 0x80) as u8,
            r5 == ((r4 % 0x80) * 2 + r4 / 0x80) as u8,
            r6 == ((r5 % 0x80) * 2 + r5 / 0x80) as u8,
            r7 == ((r6 % 0x80) * 2 + r6 / 0x80) as u8,
            r8 == ((r7 % 0x80) * 2 + r7 / 0x80) as u8,
    ;
}

/// RRC applied eight times is the identity on the value.
pub proof fn lemma_rrc_eight_times(v: u8)
    ensures
        rrc_val(rrc_val(rrc_val(rrc_val(rrc_val(rrc_val(rrc_val(rrc_val(v)))))))) == v,
{
    let r1 = rrc_val(v);
    let r2 = rrc_val(r1);
    let r3 = rrc_val(r2);
    let r4 = rrc_val(r3);
    let r5 = rrc_val(r4);
    let r6 = rrc_val(r5);
    let r7 = rrc_val(r6);
    let r8 = rrc_val(r7);
    assert(r8 == v) by (bit_vector)
        requires
            r1 == (v / 2 + (v % 2) * 0x80) as u8,
            r2 == (r1 / 2 + (r1 % 2) * 0x80) as u8,
            r3 == (r2 / 2 + (r2 % 2) * 0x80) as u8,
            r4 == (r3 / 2 + (r3 % 2) * 0x80) as u8,
            r5 == (r4 / 2 + (r4 % 2) * 0x80) as u8,
            r6 == (r5 / 2 + (r5 % 2) * 0x80) as u8,
            r7 == (r6 / 2 + (r6 % 2) * 0x80) as u8,
            r8 == (r7 / 2 + (r7 % 2) * 0x80) as u8,
    ;
}

/// Adding a value to A and subtracting it again restores A (the flags are
/// excepted).
pub proof fn lemma_add_sub_restores(a: u8, b: u8)
    ensures
        sub8_val(add8_val(a, b, 0), b, 0) == a,
{
    let r = add8_val(a, b, 0);
    let d = sub8_val(r, b, 0);
    assert(d == a) by (bit_vector)
        requires
            r == ((a + b) % 0x100) as u8,
            d == ((r - b) % 0x100) as u8,
    ;
}

} // verus!

