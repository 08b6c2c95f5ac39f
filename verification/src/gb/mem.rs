//! Memory bus: address decode over ROM, VRAM, SRAM, WRAM, echo RAM, OAM,
//! the I/O register file, HRAM and the interrupt-enable register, plus the
//! timer unit (DIV/TIMA/TMA/TAC) driven by the 16-bit system clock.
//!
//! Bytes written to the serial-data register 0xFF01 are collected in a
//! buffer that the host drains; that is how test programs report results.

use vstd::prelude::*;

use crate::gb::arith::zero_bytes;
use crate::gb::ppu::{initial_video, is_ppu_addr, Video, VideoView};

verus! {

/// Mathematical model of the bus, timer and serial tap.
pub struct MemView {
    pub sys_clock: u16,
    pub rom: Seq<u8>,
    pub sram: Seq<u8>,
    pub wram: Seq<u8>,
    pub hram: Seq<u8>,
    pub joypad: u8,
    pub joypad_buttons: u8,
    pub joypad_dpad: u8,
    pub tima: u8,
    pub tma: u8,
    pub tac: u8,
    pub timer_and: bool,
    pub tima_overflowed: bool,
    pub if_reg: u8,
    pub ie_reg: u8,
    pub serial: Seq<u8>,
    pub video: VideoView,
}

/// Addresses that always read 0xFF and discard writes.
pub open spec fn unused_addr(addr: u16) -> bool {
    ||| addr == 0xFF03
    ||| (0xFF08 <= addr && addr <= 0xFF0E)
    ||| addr == 0xFF15
    ||| addr == 0xFF1F
    ||| (0xFF27 <= addr && addr <= 0xFF2F)
    ||| (0xFF4C <= addr && addr <= 0xFF4E)
    ||| (0xFF56 <= addr && addr <= 0xFF67)
    ||| (0xFF6C <= addr && addr <= 0xFF6F)
}

/// Weight `2^S` of the system-clock bit selected by TAC bits 0-1
/// (00 -> bit 9, 01 -> bit 3, 10 -> bit 5, 11 -> bit 7).
pub open spec fn tac_weight(tac: u8) -> u16 {
    if tac % 4 == 0 {
        0x200
    } else if tac % 4 == 1 {
        0x8
    } else if tac % 4 == 2 {
        0x20
    } else {
        0x80
    }
}

impl MemView {
    pub open spec fn wf(self) -> bool {
        &&& self.rom.len() == 0x8000
        &&& self.sram.len() == 0x2000
        &&& self.wram.len() == 0x2000
        &&& self.hram.len() == 0x7F
        &&& self.video.wf()
        &&& self.joypad_buttons < 0x10
        &&& self.joypad_dpad < 0x10
        &&& self.tac >= 0xF8
        &&& self.if_reg >= 0xE0
        &&& self.ie_reg < 0x20
    }

    /// The AND of the selected system-clock bit with the TAC enable bit;
    /// TIMA advances on falling edges of this value.
    pub open spec fn timer_and_now(self) -> bool {
        (self.tac / 4) % 2 == 1 && (self.sys_clock / tac_weight(self.tac)) % 2 == 1
    }

    /// One step of the timer's edge detector: on a falling edge of the
    /// selected-and-enabled clock bit, TIMA is incremented; a wrap from
    /// 0xFF latches the overflow and leaves 0x00 in TIMA for the window
    /// until the next machine cycle resolves it.
    #[verifier::opaque]
    pub open spec fn detect_edge(self) -> MemView {
        let now = self.timer_and_now();
        if self.timer_and && !now {
            if self.tima == 0xFF {
                MemView { tima: 0, tima_overflowed: true, timer_and: now, ..self }
            } else {
                MemView { tima: (self.tima + 1) as u8, timer_and: now, ..self }
            }
        } else {
            MemView { timer_and: now, ..self }
        }
    }

    /// One machine cycle of the system clock: advance by 4 T-cycles
    /// (wrapping) and run the edge detector.
    #[verifier::opaque]
    pub open spec fn inc_clk(self) -> MemView {
        MemView { sys_clock: crate::gb::arith::w16(self.sys_clock + 4), ..self }.detect_edge()
    }

    /// Resolution of a latched TIMA overflow: reload TIMA from TMA and
    /// request the timer interrupt (IF bit 2).
    #[verifier::opaque]
    pub open spec fn check_overflow(self) -> MemView {
        if self.tima_overflowed {
            MemView {
                tima_overflowed: false,
                tima: self.tma,
                if_reg: if (self.if_reg / 4) % 2 == 1 {
                    self.if_reg
                } else {
                    (self.if_reg + 4) as u8
                },
                ..self
            }
        } else {
            self
        }
    }

    /// Value of the joypad register: bits 6-7 read as 1, bits 4-5 are the
    /// stored select nibble, and the low nibble is the selected group
    /// (0xF when neither group is selected, the AND of both when both are).
    pub open spec fn joypad_read(self) -> u8 {
        let select = (self.joypad / 0x10) % 4;
        let nibble = if select == 3 {
            0xFu8
        } else if select == 2 {
            self.joypad_dpad
        } else if select == 1 {
            self.joypad_buttons
        } else {
            self.joypad_buttons & self.joypad_dpad
        };
        (0xC0 + select * 0x10 + nibble) as u8
    }

    /// Value read from an I/O register address (0xFF00..=0xFF7F, unused
    /// addresses excluded).
    #[verifier::opaque]
    pub open spec fn io_read(self, addr: u16) -> u8 {
        if addr == 0xFF00 {
            self.joypad_read()
        } else if addr == 0xFF01 || addr == 0xFF02 {
            0xFF
        } else if addr == 0xFF04 {
            (self.sys_clock / 0x100) as u8
        } else if addr == 0xFF05 {
            self.tima
        } else if addr == 0xFF06 {
            self.tma
        } else if addr == 0xFF07 {
            self.tac
        } else if addr == 0xFF0F {
            self.if_reg
        } else if 0xFF40 <= addr && addr <= 0xFF4B {
            self.video.read(addr)
        } else {
            0xFF
        }
    }

    /// Value returned by a bus read of `addr`.
    #[verifier::opaque]
    pub open spec fn read(self, addr: u16) -> u8 {
        if unused_addr(addr) {
            0xFF
        } else if addr < 0x8000 {
            self.rom[addr as int]
        } else if addr < 0xA000 {
            self.video.read(addr)
        } else if addr < 0xC000 {
            self.sram[addr - 0xA000]
        } else if addr < 0xE000 {
            self.wram[addr - 0xC000]
        } else if addr < 0xFE00 {
            self.wram[addr - 0xE000]
        } else if addr < 0xFEA0 {
            self.video.read(addr)
        } else if addr < 0xFF00 {
            0
        } else if addr < 0xFF80 {
            self.io_read(addr)
        } else if addr < 0xFFFF {
            self.hram[addr - 0xFF80]
        } else {
            self.ie_reg
        }
    }

    /// State after a write of `data` to an I/O register address.
    #[verifier::opaque]
    pub open spec fn io_write(self, addr: u16, data: u8) -> MemView {
        if addr == 0xFF00 {
            MemView { joypad: (0xC0 + ((data / 0x10) % 4) * 0x10) as u8, ..self }
        } else if addr == 0xFF01 {
            MemView { serial: self.serial.push(data), ..self }
        } else if addr == 0xFF04 {
            MemView { sys_clock: 0, ..self }.detect_edge()
        } else if addr == 0xFF05 {
            MemView { tima: data, tima_overflowed: false, ..self }
        } else if addr == 0xFF06 {
            MemView { tma: data, ..self }
        } else if addr == 0xFF07 {
            MemView { tac: (0xF8 + data % 8) as u8, ..self }
        } else if addr == 0xFF0F {
            MemView { if_reg: (0xE0 + data % 0x20) as u8, ..self }
        } else if 0xFF40 <= addr && addr <= 0xFF4B {
            MemView { video: self.video.write(addr, data), ..self }
        } else {
            self
        }
    }

    /// State after a bus write of `data` to `addr`. ROM and the prohibited
    /// range drop the write; echo RAM aliases WRAM.
    #[verifier::opaque]
    pub open spec fn write(self, addr: u16, data: u8) -> MemView {
        if unused_addr(addr) {
            self
        } else if addr < 0x8000 {
            self
        } else if addr < 0xA000 {
            MemView { video: self.video.write(addr, data), ..self }
        } else if addr < 0xC000 {
            MemView { sram: self.sram.update(addr - 0xA000, data), ..self }
        } else if addr < 0xE000 {
            MemView { wram: self.wram.update(addr - 0xC000, data), ..self }
        } else if addr < 0xFE00 {
            MemView { wram: self.wram.update(addr - 0xE000, data), ..self }
        } else if addr < 0xFEA0 {
            MemView { video: self.video.write(addr, data), ..self }
        } else if addr < 0xFF00 {
            self
        } else if addr < 0xFF80 {
            self.io_write(addr, data)
        } else if addr < 0xFFFF {
            MemView { hram: self.hram.update(addr - 0xFF80, data), ..self }
        } else {
            MemView { ie_reg: data % 0x20, ..self }
        }
    }

    /// Some interrupt is both requested and enabled.
    pub open spec fn pending_interrupt(self) -> bool {
        self.if_reg & self.ie_reg & 0x1F != 0
    }
}

/// `base` with its first `data.len()` bytes replaced by `data`.
pub open spec fn overlay(base: Seq<u8>, data: Seq<u8>) -> Seq<u8> {
    Seq::new(base.len(), |i: int| if i < data.len() { data[i] } else { base[i] })
}

/// Power-on contents of the bus: DMG post-boot-ROM values.
pub open spec fn initial_mem() -> MemView {
    MemView {
        sys_clock: 0xAB00,
        rom: Seq::new(0x8000, |i: int| 0u8),
        sram: Seq::new(0x2000, |i: int| 0u8),
        wram: Seq::new(0x2000, |i: int| 0u8),
        hram: Seq::new(0x7F, |i: int| 0u8),
        joypad: 0xCF,
        joypad_buttons: 0xF,
        joypad_dpad: 0xF,
        tima: 0,
        tma: 0,
        tac: 0xF8,
        timer_and: false,
        tima_overflowed: false,
        if_reg: 0xE1,
        ie_reg: 0,
        serial: Seq::empty(),
        video: initial_video(),
    }
}

pub struct Memory {
    sys_clock: u16,
    rom_bank: Vec<u8>,
    sram: Vec<u8>,
    wram: Vec<u8>,
    hram: Vec<u8>,
    joypad: u8,
    joypad_buttons: u8,
    joypad_dpad: u8,
    tima: u8,
    tma: u8,
    tac: u8,
    timer_and: bool,
    tima_overflowed: bool,
    if_reg: u8,
    ie_reg: u8,
    serial_out: Vec<u8>,
    video: Video,
}

impl View for Memory {
    type V = MemView;

    closed spec fn view(&self) -> MemView {
        MemView {
            sys_clock: self.sys_clock,
            rom: self.rom_bank@,
            sram: self.sram@,
            wram: self.wram@,
            hram: self.hram@,
            joypad: self.joypad,
            joypad_buttons: self.joypad_buttons,
            joypad_dpad: self.joypad_dpad,
            tima: self.tima,
            tma: self.tma,
            tac: self.tac,
            timer_and: self.timer_and,
            tima_overflowed: self.tima_overflowed,
            if_reg: self.if_reg,
            ie_reg: self.ie_reg,
            serial: self.serial_out@,
            video: self.video@,
        }
    }
}

impl Memory {
    pub fn new() -> (m: Memory)
        ensures
            m@ == initial_mem(),
            m@.wf(),
    {
        let m = Memory {
            sys_clock: 0xAB00,
            rom_bank: zero_bytes(0x8000),
            sram: zero_bytes(0x2000),
            wram: zero_bytes(0x2000),
            hram: zero_bytes(0x7F),
            joypad: 0xCF,
            joypad_buttons: 0xF,
            joypad_dpad: 0xF,
            tima: 0,
            tma: 0,
            tac: 0xF8,
            timer_and: false,
            tima_overflowed: false,
            if_reg: 0xE1,
            ie_reg: 0,
            serial_out: Vec::new(),
            video: Video::new(),
        };
        proof {
            assert(m@.rom =~= initial_mem().rom);
            assert(m@.sram =~= initial_mem().sram);
            assert(m@.wram =~= initial_mem().wram);
            assert(m@.hram =~= initial_mem().hram);
            assert(m@.serial =~= initial_mem().serial);
            assert(m@ =~= initial_mem());
        }
        m
    }

    pub fn read(&mut self, addr: u16) -> (r: u8)
        requires
            old(self)@.wf(),
        ensures
            *final(self) == *old(self),
            r == old(self)@.read(addr),
    {
        proof {
            reveal(MemView::read);
        }
        // Unused addresses
        if addr == 0xFF03 || (0xFF08 <= addr && addr <= 0xFF0E) || addr == 0xFF15
            || addr == 0xFF1F || (0xFF27 <= addr && addr <= 0xFF2F)
            || (0xFF4C <= addr && addr <= 0xFF4E) || (0xFF56 <= addr && addr <= 0xFF67)
            || (0xFF6C <= addr && addr <= 0xFF6F) {
            0xFF
        } else if addr < 0x8000 {
            // ROM
            self.rom_bank[addr as usize]
        } else if addr < 0xA000 {
            // VRAM (PPU, mode-gated)
            self.video.read(addr)
        } else if addr < 0xC000 {
            // SRAM
            self.sram[(addr - 0xA000) as usize]
        } else if addr < 0xE000 {
            // WRAM
            self.wram[(addr - 0xC000) as usize]
        } else if addr < 0xFE00 {
            // Echo RAM
            self.wram[(addr - 0xE000) as usize]
        } else if addr < 0xFEA0 {
            // OAM (PPU, mode-gated)
            self.video.read(addr)
        } else if addr < 0xFF00 {
            // Prohibited range
            0
        } else if addr < 0xFF80 {
            self.io_read(addr)
        } else if addr < 0xFFFF {
            // HRAM
            self.hram[(addr - 0xFF80) as usize]
        } else {
            // Interrupt enable register
            self.ie_reg
        }
    }

    fn io_read(&mut self, addr: u16) -> (r: u8)
        requires
            old(self)@.wf(),
            0xFF00 <= addr < 0xFF80,
            !unused_addr(addr),
        ensures
            *final(self) == *old(self),
            r == old(self)@.io_read(addr),
    {
        proof {
            reveal(MemView::io_read);
        }
        if addr == 0xFF00 {
            // Joypad
            let select = (self.joypad / 0x10) % 4;
            let nibble: u8 = if select == 3 {
                0xF
            } else if select == 2 {
                self.joypad_dpad
            } else if select == 1 {
                self.joypad_buttons
            } else {
                let b = self.joypad_buttons;
                let d = self.joypad_dpad;
                proof {
                    assert(b & d < 0x10) by (bit_vector)
                        requires b < 0x10;
                }
                b & d
            };
            0xC0 + select * 0x10 + nibble
        } else if addr == 0xFF01 || addr == 0xFF02 {
            // Serial: no transfer state machine is modelled
            0xFF
        } else if addr == 0xFF04 {
            // DIV: high byte of the system clock
            (self.sys_clock / 0x100) as u8
        } else if addr == 0xFF05 {
            self.tima
        } else if addr == 0xFF06 {
            self.tma
        } else if addr == 0xFF07 {
            self.tac
        } else if addr == 0xFF0F {
            self.if_reg
        } else if 0xFF40 <= addr && addr <= 0xFF4B {
            // LCD registers
            self.video.read(addr)
        } else {
            // Audio, wave pattern, CGB-only registers: open-bus reads
            0xFF
        }
    }

    pub fn write(&mut self, addr: u16, data: u8)
        requires
            old(self)@.wf(),
        ensures
            final(self)@ == old(self)@.write(addr, data),
            final(self)@.wf(),
    {
        proof {
            reveal(MemView::write);
        }
        // Unused addresses: discard
        if addr == 0xFF03 || (0xFF08 <= addr && addr <= 0xFF0E) || addr == 0xFF15
            || addr == 0xFF1F || (0xFF27 <= addr && addr <= 0xFF2F)
            || (0xFF4C <= addr && addr <= 0xFF4E) || (0xFF56 <= addr && addr <= 0xFF67)
            || (0xFF6C <= addr && addr <= 0xFF6F) {
        } else if addr < 0x8000 {
            // ROM: read-only
        } else if addr < 0xA000 {
            // VRAM
            self.video.write(addr, data);
        } else if addr < 0xC000 {
            // SRAM
            self.sram[(addr - 0xA000) as usize] = data;
        } else if addr < 0xE000 {
            // WRAM
            self.wram[(addr - 0xC000) as usize] = data;
        } else if addr < 0xFE00 {
            // Echo RAM
            self.wram[(addr - 0xE000) as usize] = data;
        } else if addr < 0xFEA0 {
            // OAM
            self.video.write(addr, data);
        } else if addr < 0xFF00 {
            // Prohibited range: discard
        } else if addr < 0xFF80 {
            self.io_write(addr, data);
        } else if addr < 0xFFFF {
            // HRAM
            self.hram[(addr - 0xFF80) as usize] = data;
        } else {
            // Interrupt enable register: lower 5 bits stored
            self.ie_reg = data % 0x20;
        }
    }

    fn io_write(&mut self, addr: u16, data: u8)
        requires
            old(self)@.wf(),
            0xFF00 <= addr < 0xFF80,
            !unused_addr(addr),
        ensures
            final(self)@ == old(self)@.io_write(addr, data),
            final(self)@.wf(),
    {
        proof {
            reveal(MemView::io_write);
        }
        if addr == 0xFF00 {
            // Joypad: bits 4-5 stored, 6-7 forced to 1
            self.joypad = 0xC0 + ((data / 0x10) % 4) * 0x10;
        } else if addr == 0xFF01 {
            // Serial data: collected for the host's test tap
            self.serial_out.push(data);
        } else if addr == 0xFF04 {
            // DIV: clears the whole system clock, which may itself produce
            // a falling edge on the selected timer bit
            self.sys_clock = 0;
            self.detect_and();
        } else if addr == 0xFF05 {
            // TIMA: also cancels a pending overflow
            self.tima = data;
            self.tima_overflowed = false;
        } else if addr == 0xFF06 {
            self.tma = data;
        } else if addr == 0xFF07 {
            // TAC: bits 3-7 forced to 1
            self.tac = 0xF8 + data % 8;
        } else if addr == 0xFF0F {
            // IF: bits 5-7 forced to 1
            self.if_reg = 0xE0 + data % 0x20;
        } else if 0xFF40 <= addr && addr <= 0xFF4B {
            // LCD registers
            self.video.write(addr, data);
        } else {
            // Audio, wave pattern, CGB-only registers: discard
        }
    }

    pub fn load_rom(&mut self, data: &[u8]) -> (ok: bool)
        requires
            old(self)@.wf(),
        ensures
            final(self)@.wf(),
            data@.len() <= 0x8000 ==> ok && final(self)@ == (MemView {
                rom: overlay(old(self)@.rom, data@),
                ..old(self)@
            }),
            data@.len() > 0x8000 ==> !ok && *final(self) == *old(self),
    {
        if data.len() > 0x8000 {
            return false;
        }
        let ghost m0 = self@;
        let mut i: usize = 0;
        while i < data.len()
            invariant
                self@.wf(),
                i <= data@.len() <= 0x8000,
                self@ == (MemView { rom: self@.rom, ..m0 }),
                self@.rom.len() == 0x8000,
                forall|j: int| 0 <= j < i ==> self@.rom[j] == data@[j],
                forall|j: int| i <= j < 0x8000 ==> self@.rom[j] == m0.rom[j],
            decreases data@.len() - i,
        {
            self.rom_bank[i] = data[i];
            i = i + 1;
        }
        proof {
            assert(self@.rom =~= overlay(m0.rom, data@));
            assert(self@ =~= MemView { rom: overlay(m0.rom, data@), ..m0 });
        }
        true
    }

    /// One machine cycle: the system clock advances by 4 T-cycles and the
    /// timer's edge detector runs.
    pub fn inc_clk(&mut self)
        requires
            old(self)@.wf(),
        ensures
            final(self)@ == old(self)@.inc_clk(),
            final(self)@.wf(),
    {
        proof {
            reveal(MemView::inc_clk);
        }
        self.sys_clock = self.sys_clock.wrapping_add(4);
        self.detect_and();
    }

    fn detect_and(&mut self)
        requires
            old(self)@.wf(),
        ensures
            final(self)@ == old(self)@.detect_edge(),
            final(self)@.wf(),
    {
        proof {
            reveal(MemView::detect_edge);
        }
        let select = self.tac % 4;
        let weight: u16 = if select == 0 {
            0x200
        } else if select == 1 {
            0x8
        } else if select == 2 {
            0x20
        } else {
            0x80
        };
        let enabled = (self.tac / 4) % 2 == 1;
        let and_result = enabled && (self.sys_clock / weight) % 2 == 1;
        if self.timer_and && !and_result {
            if self.tima == 0xFF {
                self.tima = 0;
                self.tima_overflowed = true;
            } else {
                self.tima = self.tima + 1;
            }
        }
        self.timer_and = and_result;
    }

    /// Resolve a TIMA overflow latched on the previous machine cycle:
    /// reload TIMA from TMA and request the timer interrupt.
    pub fn check_overflow(&mut self)
        requires
            old(self)@.wf(),
        ensures
            final(self)@ == old(self)@.check_overflow(),
            final(self)@.wf(),
    {
        proof {
            reveal(MemView::check_overflow);
        }
        if self.tima_overflowed {
            self.tima_overflowed = false;
            self.tima = self.tma;
            if (self.if_reg / 4) % 2 != 1 {
                self.if_reg = self.if_reg + 4;
            }
        }
    }

    /// Some interrupt is both requested and enabled.
    pub(crate) fn interrupt_pending(&self) -> (b: bool)
        ensures
            b == self@.pending_interrupt(),
    {
        self.if_reg & self.ie_reg & 0x1F != 0
    }

    /// Hand the bytes written to the serial-data register so far to the
    /// caller, emptying the buffer.
    pub fn take_serial(&mut self) -> (out: Vec<u8>)
        requires
            old(self)@.wf(),
        ensures
            final(self)@.wf(),
            out@ == old(self)@.serial,
            final(self)@ == (MemView { serial: Seq::<u8>::empty(), ..old(self)@ }),
    {
        let mut out: Vec<u8> = Vec::new();
        core::mem::swap(&mut out, &mut self.serial_out);
        out
    }
}

} // verus!
