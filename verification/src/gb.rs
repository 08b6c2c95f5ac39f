//! The emulated machine: CPU register file, fetch/decode/execute and the
//! machine-cycle bookkeeping, owning the memory bus it drives.

pub mod arith;
pub mod laws;
pub mod mem;
pub mod ppu;
pub mod step;

use vstd::prelude::*;

use crate::gb::arith::{bit_weight, c_flag, flags, get_bit8, put_bit8, signed8, w16};
use crate::gb::mem::Memory;
use crate::gb::step::{
    add16_flags, add8_flags, add8_val, add_sp_flags, add_sp_val, cond_s, dec8_flags, dec8_val,
    fetch_s, inc8_flags, inc8_val, initial_gb, mcycles, rl_val, rlc_val, rr_val, rrc_val,
    step_op, step_tick, taken_of, tick_cycles, sub8_flags, sub8_val, GbView,
};

verus! {

pub struct Gameboy {
    pc: u16,
    sp: u16,
    a_reg: u8,
    b_reg: u8,
    c_reg: u8,
    d_reg: u8,
    e_reg: u8,
    f_reg: u8,
    h_reg: u8,
    l_reg: u8,
    ime: bool,
    halted: bool,
    fault: Option<u16>,
    instr_cycles: u8,
    mem: Memory,
}

impl View for Gameboy {
    type V = GbView;

    closed spec fn view(&self) -> GbView {
        GbView {
            pc: self.pc,
            sp: self.sp,
            a: self.a_reg,
            b: self.b_reg,
            c: self.c_reg,
            d: self.d_reg,
            e: self.e_reg,
            f: self.f_reg,
            h: self.h_reg,
            l: self.l_reg,
            ime: self.ime,
            halted: self.halted,
            fault: self.fault,
            instr_cycles: self.instr_cycles,
            mem: self.mem@,
        }
    }
}

impl Gameboy {
    /// Power-on state: DMG post-boot-ROM register values, bus included.
    pub fn new() -> (gb: Gameboy)
        ensures
            gb@ == initial_gb(),
            gb@.wf(),
    {
        Gameboy {
            pc: 0x100,
            sp: 0xFFFE,
            a_reg: 0x01,
            b_reg: 0x00,
            c_reg: 0x13,
            d_reg: 0x00,
            e_reg: 0xD8,
            f_reg: 0xB0,
            h_reg: 0x01,
            l_reg: 0x4D,
            ime: false,
            halted: false,
            fault: None,
            instr_cycles: 0,
            mem: Memory::new(),
        }
    }

    pub fn get_af(&self) -> (r: u16)
        ensures
            r == self@.af(),
    {
        (self.a_reg as u16) * 0x100 + (self.f_reg as u16)
    }

    /// Setting AF masks the low nibble of F to zero; F cannot hold one.
    pub fn set_af(&mut self, value: u16)
        ensures
            final(self)@ == old(self)@.with_af(value),
    {
        self.a_reg = (value / 0x100) as u8;
        self.f_reg = ((value % 0x100) / 0x10 * 0x10) as u8;
    }

    pub fn get_bc(&self) -> (r: u16)
        ensures
            r == self@.bc(),
    {
        (self.b_reg as u16) * 0x100 + (self.c_reg as u16)
    }

    pub fn set_bc(&mut self, value: u16)
        ensures
            final(self)@ == old(self)@.with_bc(value),
    {
        self.b_reg = (value / 0x100) as u8;
        self.c_reg = (value % 0x100) as u8;
    }

    pub fn get_de(&self) -> (r: u16)
        ensures
            r == self@.de(),
    {
        (self.d_reg as u16) * 0x100 + (self.e_reg as u16)
    }

    pub fn set_de(&mut self, value: u16)
        ensures
            final(self)@ == old(self)@.with_de(value),
    {
        self.d_reg = (value / 0x100) as u8;
        self.e_reg = (value % 0x100) as u8;
    }

    pub fn get_hl(&self) -> (r: u16)
        ensures
            r == self@.hl(),
    {
        (self.h_reg as u16) * 0x100 + (self.l_reg as u16)
    }

    pub fn set_hl(&mut self, value: u16)
        ensures
            final(self)@ == old(self)@.with_hl(value),
    {
        self.h_reg = (value / 0x100) as u8;
        self.l_reg = (value % 0x100) as u8;
    }

    pub fn get_pc(&self) -> (r: u16)
        ensures
            r == self@.pc,
    {
        self.pc
    }

    pub fn get_sp(&self) -> (r: u16)
        ensures
            r == self@.sp,
    {
        self.sp
    }

    /// Machine cycles consumed by the last `tick`.
    pub fn get_cycles(&self) -> (r: u8)
        ensures
            r == self@.instr_cycles,
    {
        self.instr_cycles
    }

    /// The opcode that trapped the CPU (STOP or an illegal encoding), if
    /// any; a trapped CPU ignores further `tick`s.
    pub fn get_fault(&self) -> (r: Option<u16>)
        ensures
            r == self@.fault,
    {
        self.fault
    }

    pub fn get_halted(&self) -> (r: bool)
        ensures
            r == self@.halted,
    {
        self.halted
    }

    pub fn get_ime(&self) -> (r: bool)
        ensures
            r == self@.ime,
    {
        self.ime
    }

    /// Force flag bit `flag` (7=Z, 6=N, 5=H, 4=C) to `value`. Only the
    /// high-nibble flag bits exist; the low nibble of F stays zero.
    pub fn set_flag(&mut self, flag: u8, value: bool)
        requires
            old(self)@.wf(),
            4 <= flag < 8,
        ensures
            final(self)@ == (GbView { f: put_bit8(old(self)@.f, flag, value), ..old(self)@ }),
            final(self)@.wf(),
    {
        let w = weight_of(flag);
        let set = (self.f_reg / w) % 2 == 1;
        if value && !set {
            self.f_reg = self.f_reg + w;
        }
        if !value && set {
            self.f_reg = self.f_reg - w;
        }
    }

    /// Flag bit `flag` of F as 0 or 1.
    pub fn read_flag(&self, flag: u8) -> (r: u8)
        requires
            flag < 8,
        ensures
            r == (if get_bit8(self@.f, flag) {
                1u8
            } else {
                0u8
            }),
    {
        let w = weight_of(flag);
        (self.f_reg / w) % 2
    }

    /// The branch condition encoded by two bits: NZ, Z, NC, C.
    fn check_cond(&self, cc: u8) -> (b: bool)
        requires
            cc < 4,
        ensures
            b == cond_s(cc, self@.f),
    {
        let set = if cc < 2 {
            (self.f_reg / 0x80) % 2 == 1
        } else {
            (self.f_reg / 0x10) % 2 == 1
        };
        if cc % 2 == 0 {
            !set
        } else {
            set
        }
    }

    /// Replace the whole flag register from the four flags; its low nibble
    /// is zero afterwards.
    fn set_znhc(&mut self, z: bool, n: bool, h: bool, c: bool)
        ensures
            final(self)@ == (GbView { f: flags(z, n, h, c), ..old(self)@ }),
            final(self)@.f % 16 == 0,
    {
        self.f_reg = (if z {
            0x80u8
        } else {
            0u8
        }) + (if n {
            0x40u8
        } else {
            0u8
        }) + (if h {
            0x20u8
        } else {
            0u8
        }) + (if c {
            0x10u8
        } else {
            0u8
        });
    }

    /// Load a program image into the ROM region; an image over 32 KiB is
    /// rejected and nothing changes.
    pub fn load_rom(&mut self, data: &[u8]) -> (ok: bool)
        requires
            old(self)@.wf(),
        ensures
            final(self)@.wf(),
            data@.len() <= 0x8000 ==> ok && final(self)@ == (GbView {
                mem: crate::gb::mem::MemView {
                    rom: crate::gb::mem::overlay(old(self)@.mem.rom, data@),
                    ..old(self)@.mem
                },
                ..old(self)@
            }),
            data@.len() > 0x8000 ==> !ok && *final(self) == *old(self),
    {
        self.mem.load_rom(data)
    }

    /// Bytes written to the serial-data register since the last call; the
    /// host prints them.
    pub fn take_serial(&mut self) -> (out: Vec<u8>)
        requires
            old(self)@.wf(),
        ensures
            final(self)@.wf(),
            out@ == old(self)@.mem.serial,
            final(self)@ == (GbView {
                mem: crate::gb::mem::MemView { serial: Seq::<u8>::empty(), ..old(self)@.mem },
                ..old(self)@
            }),
    {
        self.mem.take_serial()
    }

    /// One machine cycle: resolve a pending TIMA overflow, advance the
    /// system clock by 4 T-cycles, and count the cycle.
    fn m_tick(&mut self)
        requires
            old(self)@.wf(),
        ensures
            final(self)@ == old(self)@.m_ticked(),
            final(self)@.wf(),
    {
        self.mem.check_overflow();
        self.mem.inc_clk();
        if self.instr_cycles < 255 {
            self.instr_cycles = self.instr_cycles + 1;
        }
    }

    /// Read the byte at PC (one machine cycle) and advance PC.
    fn read_next(&mut self) -> (r: u8)
        requires
            old(self)@.wf(),
        ensures
            final(self)@ == old(self)@.read_next_s().0,
            r == old(self)@.read_next_s().1,
            final(self)@.wf(),
    {
        self.m_tick();
        let next = self.mem.read(self.pc);
        self.pc = self.pc.wrapping_add(1);
        next
    }

    /// Store `value` at `addr` (one machine cycle).
    fn ld_mem(&mut self, addr: u16, value: u8)
        requires
            old(self)@.wf(),
        ensures
            final(self)@ == old(self)@.write_mem_s(addr, value),
            final(self)@.wf(),
    {
        self.m_tick();
        self.mem.write(addr, value);
    }

    /// Read the byte at `addr` (one machine cycle).
    fn read_mem(&mut self, addr: u16) -> (r: u8)
        requires
            old(self)@.wf(),
        ensures
            final(self)@ == old(self)@.read_mem_s(addr).0,
            r == old(self)@.read_mem_s(addr).1,
            final(self)@.wf(),
    {
        self.m_tick();
        self.mem.read(addr)
    }

    /// 16-bit add for ADD HL,r16: one internal machine cycle; N cleared,
    /// H from bit 11, C from bit 15, Z untouched.
    pub fn add_16(&mut self, first: u16, second: u16) -> (r: u16)
        requires
            old(self)@.wf(),
        ensures
            r == w16(first + second),
            final(self)@ == (GbView {
                f: add16_flags(first, second, old(self)@.f),
                ..old(self)@.m_ticked()
            }),
            final(self)@.wf(),
    {
        let z = (self.f_reg / 0x80) % 2 == 1;
        let h = first % 0x1000 + second % 0x1000 > 0xFFF;
        self.m_tick();
        let c = first > 0xFFFF - second;
        self.set_znhc(z, false, h, c);
        let total = (first as u32 + second as u32) % 0x10000;
        total as u16
    }

    /// 8-bit add with carry-in; Z from the result, N=0, H from the nibble
    /// carry, C from the full carry.
    pub fn add_8(&mut self, first: u8, second: u8, carry: u8) -> (r: u8)
        requires
            old(self)@.wf(),
            carry <= 1,
        ensures
            r == add8_val(first, second, carry),
            final(self)@ == (GbView { f: add8_flags(first, second, carry), ..old(self)@ }),
            final(self)@.wf(),
    {
        let total = first as u16 + second as u16 + carry as u16;
        let r = (total % 0x100) as u8;
        let h = first % 0x10 + second % 0x10 + carry > 0xF;
        self.set_znhc(r == 0, false, h, total > 0xFF);
        r
    }

    /// SP plus a signed immediate byte (two's complement); Z=0, N=0, H and
    /// C from the unsigned low byte of SP plus the immediate's byte.
    pub fn add_sp_signed(&mut self, small: u8) -> (r: u16)
        requires
            old(self)@.wf(),
        ensures
            r == add_sp_val(old(self)@.sp, small),
            final(self)@ == (GbView { f: add_sp_flags(old(self)@.sp, small), ..old(self)@ }),
            final(self)@.wf(),
    {
        let h = self.sp % 0x10 + (small % 0x10) as u16 > 0xF;
        let c = self.sp % 0x100 + small as u16 > 0xFF;
        self.set_znhc(false, false, h, c);
        if small < 0x80 {
            self.sp.wrapping_add(small as u16)
        } else {
            self.sp.wrapping_sub(0x100 - small as u16)
        }
    }

    /// 8-bit increment; C untouched.
    pub fn inc_8(&mut self, value: u8) -> (r: u8)
        requires
            old(self)@.wf(),
        ensures
            r == inc8_val(value),
            final(self)@ == (GbView { f: inc8_flags(value, old(self)@.f), ..old(self)@ }),
            final(self)@.wf(),
    {
        let c = (self.f_reg / 0x10) % 2 == 1;
        let r = ((value as u16 + 1) % 0x100) as u8;
        self.set_znhc(r == 0, false, value % 0x10 == 0xF, c);
        r
    }

    /// 8-bit subtract with borrow-in; Z from the result, N=1, H from the
    /// nibble borrow, C from the full borrow.
    pub fn sub_8(&mut self, first: u8, second: u8, carry: u8) -> (r: u8)
        requires
            old(self)@.wf(),
            carry <= 1,
        ensures
            r == sub8_val(first, second, carry),
            final(self)@ == (GbView { f: sub8_flags(first, second, carry), ..old(self)@ }),
            final(self)@.wf(),
    {
        let total = (0x200 + first as u16 - second as u16 - carry as u16) % 0x100;
        let r = total as u8;
        let h = first % 0x10 < second % 0x10 + carry;
        let c = (first as u16) < second as u16 + carry as u16;
        self.set_znhc(r == 0, true, h, c);
        proof {
            assert((0x200 + first - second - carry) % 0x100 == (first - second - carry) % 0x100);
        }
        r
    }

    /// 8-bit decrement; C untouched.
    pub fn dec_8(&mut self, value: u8) -> (r: u8)
        requires
            old(self)@.wf(),
        ensures
            r == dec8_val(value),
            final(self)@ == (GbView { f: dec8_flags(value, old(self)@.f), ..old(self)@ }),
            final(self)@.wf(),
    {
        let c = (self.f_reg / 0x10) % 2 == 1;
        let r = ((value as u16 + 0xFF) % 0x100) as u8;
        self.set_znhc(r == 0, true, value % 0x10 == 0, c);
        proof {
            assert((value + 0xFF) % 0x100 == (value - 1) % 0x100);
        }
        r
    }

    /// Rotate left, through the carry flag or circularly; Z from the
    /// result, N=0, H=0, C from the bit rotated out.
    pub fn rotate_left(&mut self, value: u8, circular: bool) -> (r: u8)
        requires
            old(self)@.wf(),
        ensures
            r == (if circular {
                rlc_val(value)
            } else {
                rl_val(value, c_flag(old(self)@.f))
            }),
            final(self)@ == (GbView {
                f: flags(r == 0, false, false, value >= 0x80),
                ..old(self)@
            }),
            final(self)@.wf(),
    {
        let highest = value / 0x80;
        let low_in: u8 = if circular {
            highest
        } else {
            (self.f_reg / 0x10) % 2
        };
        let r = (value % 0x80) * 2 + low_in;
        self.set_znhc(r == 0, false, false, highest == 1);
        r
    }

    /// Rotate right, through the carry flag or circularly; Z from the
    /// result, N=0, H=0, C from the bit rotated out.
    pub fn rotate_right(&mut self, value: u8, circular: bool) -> (r: u8)
        requires
            old(self)@.wf(),
        ensures
            r == (if circular {
                rrc_val(value)
            } else {
                rr_val(value, c_flag(old(self)@.f))
            }),
            final(self)@ == (GbView {
                f: flags(r == 0, false, false, value % 2 == 1),
                ..old(self)@
            }),
            final(self)@.wf(),
    {
        let lowest = value % 2;
        let high_in: u8 = if circular {
            lowest
        } else {
            (self.f_reg / 0x10) % 2
        };
        let r = value / 2 + high_in * 0x80;
        self.set_znhc(r == 0, false, false, lowest == 1);
        r
    }

    /// The register operand selected by a 3-bit index; index 6 reads the
    /// byte at (HL), which costs one machine cycle.
    pub fn get_r8(&mut self, r8: u8) -> (r: u8)
        requires
            old(self)@.wf(),
            r8 < 8,
        ensures
            final(self)@ == old(self)@.get_r8_s(r8).0,
            r == old(self)@.get_r8_s(r8).1,
            final(self)@.wf(),
    {
        if r8 == 0 {
            self.b_reg
        } else if r8 == 1 {
            self.c_reg
        } else if r8 == 2 {
            self.d_reg
        } else if r8 == 3 {
            self.e_reg
        } else if r8 == 4 {
            self.h_reg
        } else if r8 == 5 {
            self.l_reg
        } else if r8 == 6 {
            let addr = self.get_hl();
            self.read_mem(addr)
        } else {
            self.a_reg
        }
    }

    /// Store to the register operand selected by a 3-bit index; index 6
    /// writes the byte at (HL), which costs one machine cycle.
    pub fn set_r8(&mut self, r8: u8, value: u8)
        requires
            old(self)@.wf(),
            r8 < 8,
        ensures
            final(self)@ == old(self)@.set_r8_s(r8, value),
            final(self)@.wf(),
    {
        if r8 == 0 {
            self.b_reg = value;
        } else if r8 == 1 {
            self.c_reg = value;
        } else if r8 == 2 {
            self.d_reg = value;
        } else if r8 == 3 {
            self.e_reg = value;
        } else if r8 == 4 {
            self.h_reg = value;
        } else if r8 == 5 {
            self.l_reg = value;
        } else if r8 == 6 {
            let addr = self.get_hl();
            self.ld_mem(addr, value);
        } else {
            self.a_reg = value;
        }
    }

    /// Push a 16-bit value: one internal delay cycle, the high byte at
    /// SP-1, the low byte at SP-2; SP ends two lower.
    #[verifier::rlimit(60)]
    pub fn push_16(&mut self, value: u16)
        requires
            old(self)@.wf(),
        ensures
            final(self)@ == old(self)@.push_s(value),
            final(self)@.wf(),
    {
        let ghost s0 = self@;
        let higher = (value / 0x100) as u8;
        let lower = (value % 0x100) as u8;

        self.m_tick();
        self.sp = self.sp.wrapping_sub(1);
        proof {
            assert(self@ == (GbView { sp: w16(s0.m_ticked().sp - 1), ..s0.m_ticked() }));
        }
        let ghost s2 = self@;

        let addr_hi = self.sp;
        self.ld_mem(addr_hi, higher);
        proof {
            assert(self@ == s2.write_mem_s(s2.sp, higher));
        }
        self.sp = self.sp.wrapping_sub(1);
        let ghost s4 = self@;
        proof {
            assert(s4 == (GbView { sp: w16(s2.write_mem_s(s2.sp, higher).sp - 1), ..s2.write_mem_s(s2.sp, higher) }));
        }

        let addr_lo = self.sp;
        self.ld_mem(addr_lo, lower);
        proof {
            assert(self@ == s4.write_mem_s(s4.sp, lower));
        }
    }

    /// Pop a 16-bit value stored little-endian at SP; SP ends two higher.
    pub fn pop_16(&mut self) -> (r: u16)
        requires
            old(self)@.wf(),
        ensures
            final(self)@ == old(self)@.pop_s().0,
            r == old(self)@.pop_s().1,
            final(self)@.wf(),
    {
        let addr_lo = self.sp;
        let lower = self.read_mem(addr_lo);
        self.sp = self.sp.wrapping_add(1);

        let addr_hi = self.sp;
        let higher = self.read_mem(addr_hi);
        self.sp = self.sp.wrapping_add(1);

        (higher as u16) * 0x100 + lower as u16
    }
}

impl Gameboy {
    /// CB-prefixed instructions: rotates/shifts/SWAP, BIT, RES, SET.
    #[verifier::rlimit(100)]
    #[verifier::spinoff_prover]
    fn exec_cb(&mut self, low: u8)
        requires
            old(self)@.wf(),
            old(self)@.instr_cycles == 2,
        ensures
            final(self)@ == crate::gb::step::step_cb(old(self)@, low),
            final(self)@.wf(),
            final(self)@.instr_cycles == mcycles((0xCB00 + low) as u16, true),
    {
        proof {
            reveal(crate::gb::step::step_cb);
            reveal(crate::gb::step::mcycles);
        }
        let block = low / 64;
        let mid = (low / 8) % 8;
        let bot = low % 8;
        let initial = self.get_r8(bot);
        if block == 0 {
            let result: u8 = if mid == 0 {
                self.rotate_left(initial, true)
            } else if mid == 1 {
                self.rotate_right(initial, true)
            } else if mid == 2 {
                self.rotate_left(initial, false)
            } else if mid == 3 {
                self.rotate_right(initial, false)
            } else if mid == 4 {
                // SLA
                let r = (initial % 0x80) * 2;
                self.set_znhc(r == 0, false, false, initial >= 0x80);
                r
            } else if mid == 5 {
                // SRA: bit 7 is preserved
                let r = initial / 2 + (initial / 0x80) * 0x80;
                self.set_znhc(r == 0, false, false, initial % 2 == 1);
                r
            } else if mid == 6 {
                // SWAP
                let r = (initial % 0x10) * 0x10 + initial / 0x10;
                self.set_znhc(r == 0, false, false, false);
                r
            } else {
                // SRL: zero-fills
                let r = initial / 2;
                self.set_znhc(r == 0, false, false, initial % 2 == 1);
                r
            };
            self.set_r8(bot, result);
        } else if block == 1 {
            // BIT: Z from the inverted selected bit, no writeback
            let w = weight_of(mid);
            let z = (initial / w) % 2 == 0;
            let c = (self.f_reg / 0x10) % 2 == 1;
            self.set_znhc(z, false, true, c);
        } else if block == 2 {
            // RES
            let w = weight_of(mid);
            let r = if (initial / w) % 2 == 1 {
                initial - w
            } else {
                initial
            };
            self.set_r8(bot, r);
        } else {
            // SET
            let w = weight_of(mid);
            let r = if (initial / w) % 2 == 1 {
                initial
            } else {
                initial + w
            };
            self.set_r8(bot, r);
        }
    }

    /// PC plus a signed displacement byte (two's complement).
    fn jump_rel(&mut self, d: u8)
        ensures
            final(self)@ == (GbView { pc: w16(old(self)@.pc + signed8(d)), ..old(self)@ }),
    {
        if d < 0x80 {
            self.pc = self.pc.wrapping_add(d as u16);
        } else {
            self.pc = self.pc.wrapping_sub(0x100 - d as u16);
        }
    }

    /// Block 0: NOP, STOP, LD (u16),SP, JR, 16-bit loads and arithmetic,
    /// INC/DEC, LD r8,u8, and the accumulator/flag operations.
    fn exec_b0(&mut self, low: u8)
        requires
            old(self)@.wf(),
            low < 64,
            old(self)@.instr_cycles == 1,
        ensures
            final(self)@ == crate::gb::step::step_b0(old(self)@, low as u16),
            final(self)@.wf(),
            final(self)@.instr_cycles == mcycles(low as u16, taken_of(low as u16, old(self)@.f)),
    {
        let bot = low % 8;
        if bot == 0 {
            self.exec_b0_ctl(low);
        } else if bot <= 3 {
            self.exec_b0_w16(low);
        } else if bot <= 6 {
            self.exec_b0_r8(low);
        } else {
            self.exec_b0_acc(low);
        }
    }

    /// Block 0, z=0: NOP, LD (u16),SP, STOP, JR.
    #[verifier::rlimit(50)]
    #[verifier::spinoff_prover]
    fn exec_b0_ctl(&mut self, low: u8)
        requires
            old(self)@.wf(),
            low < 64,
            low % 8 == 0,
            old(self)@.instr_cycles == 1,
        ensures
            final(self)@ == crate::gb::step::step_b0_ctl(old(self)@, low as u16),
            final(self)@.wf(),
            final(self)@.instr_cycles == mcycles(low as u16, taken_of(low as u16, old(self)@.f)),
    {
        proof {
            reveal(crate::gb::step::step_b0_ctl);
            reveal(crate::gb::step::mcycles);
        }
        let mid = (low / 8) % 8;
        {
            if mid == 0 {
                // NOP
            } else if mid == 1 {
                // LD (u16),SP: low byte then high byte
                let lo = self.read_next();
                let hi = self.read_next();
                let addr = (hi as u16) * 0x100 + lo as u16;
                let sp_low = (self.sp % 0x100) as u8;
                self.ld_mem(addr, sp_low);
                let sp_high = (self.sp / 0x100) as u8;
                self.ld_mem(addr.wrapping_add(1), sp_high);
            } else if mid == 2 {
                // STOP: trapped; it must not occur on a correct DMG program
                self.fault = Some(low as u16);
            } else if mid == 3 {
                // JR s8
                let d = self.read_next();
                self.m_tick();
                self.jump_rel(d);
            } else {
                // JR cond,s8
                let d = self.read_next();
                let taken = self.check_cond(mid % 4);
                if taken {
                    self.m_tick();
                    self.jump_rel(d);
                }
            }
        }
    }

    /// Block 0, z=1..3: LD r16,u16, ADD HL,r16, the indirect accumulator
    /// loads, and INC/DEC r16.
    fn exec_b0_w16(&mut self, low: u8)
        requires
            old(self)@.wf(),
            low < 64,
            1 <= low % 8 <= 3,
            old(self)@.instr_cycles == 1,
        ensures
            final(self)@ == crate::gb::step::step_b0(old(self)@, low as u16),
            final(self)@.wf(),
            final(self)@.instr_cycles == mcycles(low as u16, taken_of(low as u16, old(self)@.f)),
    {
        let bot = low % 8;
        if bot == 1 {
            self.exec_b0_z1(low);
        } else if bot == 2 {
            self.exec_b0_z2(low);
        } else {
            self.exec_b0_z3(low);
        }
    }

    /// Block 0, z=1: LD r16,u16 and ADD HL,r16.
    #[verifier::rlimit(100)]
    #[verifier::spinoff_prover]
    fn exec_b0_z1(&mut self, low: u8)
        requires
            old(self)@.wf(),
            low < 64,
            low % 8 == 1,
            old(self)@.instr_cycles == 1,
        ensures
            final(self)@ == crate::gb::step::step_b0_z1(old(self)@, low as u16),
            final(self)@.wf(),
            final(self)@.instr_cycles == mcycles(low as u16, taken_of(low as u16, old(self)@.f)),
    {
        proof {
            reveal(crate::gb::step::step_b0_z1);
            reveal(crate::gb::step::mcycles);
        }
        let mid = (low / 8) % 8;
        {
            if mid % 2 == 0 {
                // LD r16,u16
                let lo = self.read_next();
                let hi = self.read_next();
                let v = (hi as u16) * 0x100 + lo as u16;
                if mid == 0 {
                    self.set_bc(v);
                } else if mid == 2 {
                    self.set_de(v);
                } else if mid == 4 {
                    self.set_hl(v);
                } else {
                    self.sp = v;
                }
            } else {
                // ADD HL,r16
                let hl = self.get_hl();
                let rr = if mid == 1 {
                    self.get_bc()
                } else if mid == 3 {
                    self.get_de()
                } else if mid == 5 {
                    self.get_hl()
                } else {
                    self.sp
                };
                let result = self.add_16(hl, rr);
                self.set_hl(result);
            }
        }
    }

    /// Block 0, z=2: LD (r16),A and LD A,(r16), with HL post-step.
    #[verifier::rlimit(100)]
    #[verifier::spinoff_prover]
    fn exec_b0_z2(&mut self, low: u8)
        requires
            old(self)@.wf(),
            low < 64,
            low % 8 == 2,
            old(self)@.instr_cycles == 1,
        ensures
            final(self)@ == crate::gb::step::step_b0_z2(old(self)@, low as u16),
            final(self)@.wf(),
            final(self)@.instr_cycles == mcycles(low as u16, taken_of(low as u16, old(self)@.f)),
    {
        proof {
            reveal(crate::gb::step::step_b0_z2);
            reveal(crate::gb::step::mcycles);
        }
        let mid = (low / 8) % 8;
        {
            if mid % 2 == 0 {
                // LD (r16),A with post-increment/-decrement of HL
                let addr = if mid == 0 {
                    self.get_bc()
                } else if mid == 2 {
                    self.get_de()
                } else {
                    self.get_hl()
                };
                let a = self.a_reg;
                self.ld_mem(addr, a);
                if mid == 4 {
                    let v = self.get_hl().wrapping_add(1);
                    self.set_hl(v);
                } else if mid == 6 {
                    let v = self.get_hl().wrapping_sub(1);
                    self.set_hl(v);
                }
            } else {
                // LD A,(r16) with post-increment/-decrement of HL
                let addr = if mid == 1 {
                    self.get_bc()
                } else if mid == 3 {
                    self.get_de()
                } else {
                    self.get_hl()
                };
                let v = self.read_mem(addr);
                self.a_reg = v;
                if mid == 5 {
                    let w = self.get_hl().wrapping_add(1);
                    self.set_hl(w);
                } else if mid == 7 {
                    let w = self.get_hl().wrapping_sub(1);
                    self.set_hl(w);
                }
            }
        }
    }

    /// Block 0, z=3: INC/DEC r16.
    #[verifier::rlimit(100)]
    #[verifier::spinoff_prover]
    fn exec_b0_z3(&mut self, low: u8)
        requires
            old(self)@.wf(),
            low < 64,
            low % 8 == 3,
            old(self)@.instr_cycles == 1,
        ensures
            final(self)@ == crate::gb::step::step_b0_z3(old(self)@, low as u16),
            final(self)@.wf(),
            final(self)@.instr_cycles == mcycles(low as u16, taken_of(low as u16, old(self)@.f)),
    {
        proof {
            reveal(crate::gb::step::step_b0_z3);
            reveal(crate::gb::step::mcycles);
        }
        let mid = (low / 8) % 8;
        {
            // INC/DEC r16
            self.m_tick();
            if mid == 0 {
                let v = self.get_bc().wrapping_add(1);
                self.set_bc(v);
            } else if mid == 1 {
                let v = self.get_bc().wrapping_sub(1);
                self.set_bc(v);
            } else if mid == 2 {
                let v = self.get_de().wrapping_add(1);
                self.set_de(v);
            } else if mid == 3 {
                let v = self.get_de().wrapping_sub(1);
                self.set_de(v);
            } else if mid == 4 {
                let v = self.get_hl().wrapping_add(1);
                self.set_hl(v);
            } else if mid == 5 {
                let v = self.get_hl().wrapping_sub(1);
                self.set_hl(v);
            } else if mid == 6 {
                self.sp = self.sp.wrapping_add(1);
            } else {
                self.sp = self.sp.wrapping_sub(1);
            }
        }
    }

    /// Block 0, z=4..6: INC r8, DEC r8, LD r8,u8.
    #[verifier::rlimit(50)]
    #[verifier::spinoff_prover]
    fn exec_b0_r8(&mut self, low: u8)
        requires
            old(self)@.wf(),
            low < 64,
            4 <= low % 8 <= 6,
            old(self)@.instr_cycles == 1,
        ensures
            final(self)@ == crate::gb::step::step_b0_r8(old(self)@, low as u16),
            final(self)@.wf(),
            final(self)@.instr_cycles == mcycles(low as u16, taken_of(low as u16, old(self)@.f)),
    {
        proof {
            reveal(crate::gb::step::step_b0_r8);
            reveal(crate::gb::step::mcycles);
        }
        let mid = (low / 8) % 8;
        let bot = low % 8;
        if bot == 4 {
            // INC r8
            let initial = self.get_r8(mid);
            let result = self.inc_8(initial);
            self.set_r8(mid, result);
        } else if bot == 5 {
            // DEC r8
            let initial = self.get_r8(mid);
            let result = self.dec_8(initial);
            self.set_r8(mid, result);
        } else if bot == 6 {
            // LD r8,u8
            let imm = self.read_next();
            self.set_r8(mid, imm);
        }
    }

    /// Block 0, z=7: RLCA/RRCA/RLA/RRA, DAA, CPL, SCF, CCF.
    #[verifier::rlimit(100)]
    #[verifier::spinoff_prover]
    fn exec_b0_acc(&mut self, low: u8)
        requires
            old(self)@.wf(),
            low < 64,
            low % 8 == 7,
            old(self)@.instr_cycles == 1,
        ensures
            final(self)@ == crate::gb::step::step_b0_acc(old(self)@, low as u16),
            final(self)@.wf(),
            final(self)@.instr_cycles == mcycles(low as u16, taken_of(low as u16, old(self)@.f)),
    {
        proof {
            reveal(crate::gb::step::step_b0_acc);
            reveal(crate::gb::step::mcycles);
        }
        let mid = (low / 8) % 8;
        {
            if mid == 0 {
                // RLCA: Z forced to 0, unlike the CB rotate
                let a = self.a_reg;
                let r = self.rotate_left(a, true);
                self.a_reg = r;
                self.set_znhc(false, false, false, a >= 0x80);
            } else if mid == 1 {
                // RRCA
                let a = self.a_reg;
                let r = self.rotate_right(a, true);
                self.a_reg = r;
                self.set_znhc(false, false, false, a % 2 == 1);
            } else if mid == 2 {
                // RLA
                let a = self.a_reg;
                let r = self.rotate_left(a, false);
                self.a_reg = r;
                self.set_znhc(false, false, false, a >= 0x80);
            } else if mid == 3 {
                // RRA
                let a = self.a_reg;
                let r = self.rotate_right(a, false);
                self.a_reg = r;
                self.set_znhc(false, false, false, a % 2 == 1);
            } else if mid == 4 {
                // DAA
                let a = self.a_reg;
                let n = (self.f_reg / 0x40) % 2 == 1;
                let h = (self.f_reg / 0x20) % 2 == 1;
                let c = (self.f_reg / 0x10) % 2 == 1;
                let lo_adj = (!n && a % 0x10 > 9) || h;
                let hi_adj = (!n && a > 0x99) || c;
                let offset: u8 = (if lo_adj {
                    6u8
                } else {
                    0u8
                }) + (if hi_adj {
                    0x60u8
                } else {
                    0u8
                });
                let a2 = if n {
                    proof {
                        assert((a + 0x100 - offset) % 0x100 == (a - offset) % 0x100);
                    }
                    ((a as u16 + 0x100 - offset as u16) % 0x100) as u8
                } else {
                    ((a as u16 + offset as u16) % 0x100) as u8
                };
                self.a_reg = a2;
                self.set_znhc(a2 == 0, n, false, hi_adj);
            } else if mid == 5 {
                // CPL
                let z = (self.f_reg / 0x80) % 2 == 1;
                let c = (self.f_reg / 0x10) % 2 == 1;
                self.a_reg = 255 - self.a_reg;
                self.set_znhc(z, true, true, c);
            } else if mid == 6 {
                // SCF
                let z = (self.f_reg / 0x80) % 2 == 1;
                self.set_znhc(z, false, false, true);
            } else {
                // CCF
                let z = (self.f_reg / 0x80) % 2 == 1;
                let c = (self.f_reg / 0x10) % 2 == 1;
                self.set_znhc(z, false, false, !c);
            }
        }
    }

    /// Block 1: LD r8,r8 and HALT.
    fn exec_b1(&mut self, low: u8)
        requires
            old(self)@.wf(),
            low / 64 == 1,
            old(self)@.instr_cycles == 1,
        ensures
            final(self)@ == crate::gb::step::step_b1(old(self)@, low as u16),
            final(self)@.wf(),
            final(self)@.instr_cycles == mcycles(low as u16, true),
    {
        proof {
            reveal(crate::gb::step::step_b1);
            reveal(crate::gb::step::mcycles);
        }
        if low == 0x76 {
            // HALT: suspend until an enabled interrupt is requested
            self.halted = true;
        } else {
            let mid = (low / 8) % 8;
            let bot = low % 8;
            let source = self.get_r8(bot);
            self.set_r8(mid, source);
        }
    }

    /// Block 2: the eight ALU operations on A and a register operand.
    fn exec_b2(&mut self, low: u8)
        requires
            old(self)@.wf(),
            low / 64 == 2,
            old(self)@.instr_cycles == 1,
        ensures
            final(self)@ == crate::gb::step::step_b2(old(self)@, low as u16),
            final(self)@.wf(),
            final(self)@.instr_cycles == mcycles(low as u16, true),
    {
        proof {
            reveal(crate::gb::step::mcycles);
        }
        let mid = (low / 8) % 8;
        let bot = low % 8;
        let source = self.get_r8(bot);
        self.exec_alu(mid, source);
    }

    /// Block 3: conditional and unconditional control flow, stack
    /// operations, the 0xFF00-page loads, ALU on an immediate, RST, DI/EI,
    /// and the illegal opcodes (trapped).
    fn exec_b3(&mut self, low: u8)
        requires
            old(self)@.wf(),
            low / 64 == 3,
            old(self)@.instr_cycles == 1,
        ensures
            final(self)@ == crate::gb::step::step_b3(old(self)@, low as u16),
            final(self)@.wf(),
            final(self)@.instr_cycles == mcycles(low as u16, taken_of(low as u16, old(self)@.f)),
    {
        let bot = low % 8;
        if bot == 0 {
            self.exec_b3_z0(low);
        } else if bot == 1 {
            self.exec_b3_z1(low);
        } else if bot == 2 {
            self.exec_b3_z2(low);
        } else if bot <= 5 {
            self.exec_b3_jmp(low);
        } else {
            self.exec_b3_alu(low);
        }
    }

    /// Block 3, z=0: RET cond, the 0xFF00-page immediate loads, and the
    /// SP-plus-immediate forms.
    #[verifier::rlimit(100)]
    #[verifier::spinoff_prover]
    fn exec_b3_z0(&mut self, low: u8)
        requires
            old(self)@.wf(),
            low / 64 == 3,
            low % 8 == 0,
            old(self)@.instr_cycles == 1,
        ensures
            final(self)@ == crate::gb::step::step_b3_z0(old(self)@, low as u16),
            final(self)@.wf(),
            final(self)@.instr_cycles == mcycles(low as u16, taken_of(low as u16, old(self)@.f)),
    {
        proof {
            reveal(crate::gb::step::step_b3_z0);
            reveal(crate::gb::step::mcycles);
        }
        let mid = (low / 8) % 8;
        if mid < 4 {
            // RET cond
            self.m_tick();
            let taken = self.check_cond(mid);
            if taken {
                let v = self.pop_16();
                self.m_tick();
                self.pc = v;
            }
        } else if mid == 4 {
            // LD (0xFF00+u8),A
            let off = self.read_next();
            let a = self.a_reg;
            self.ld_mem(0xFF00 + off as u16, a);
        } else if mid == 6 {
            // LD A,(0xFF00+u8)
            let off = self.read_next();
            let v = self.read_mem(0xFF00 + off as u16);
            self.a_reg = v;
        } else if mid == 5 {
            // ADD SP,i8
            let d = self.read_next();
            self.m_tick();
            self.m_tick();
            let r = self.add_sp_signed(d);
            self.sp = r;
        } else {
            // LD HL,SP+i8
            let d = self.read_next();
            self.m_tick();
            let r = self.add_sp_signed(d);
            self.set_hl(r);
        }
    }

    /// Block 3, z=1: POP r16, RET, RETI, JP HL, LD SP,HL.
    #[verifier::rlimit(100)]
    #[verifier::spinoff_prover]
    fn exec_b3_z1(&mut self, low: u8)
        requires
            old(self)@.wf(),
            low / 64 == 3,
            low % 8 == 1,
            old(self)@.instr_cycles == 1,
        ensures
            final(self)@ == crate::gb::step::step_b3_z1(old(self)@, low as u16),
            final(self)@.wf(),
            final(self)@.instr_cycles == mcycles(low as u16, taken_of(low as u16, old(self)@.f)),
    {
        proof {
            reveal(crate::gb::step::step_b3_z1);
            reveal(crate::gb::step::mcycles);
        }
        let mid = (low / 8) % 8;
        if mid % 2 == 0 {
            // POP r16
            let v = self.pop_16();
            if mid == 0 {
                self.set_bc(v);
            } else if mid == 2 {
                self.set_de(v);
            } else if mid == 4 {
                self.set_hl(v);
            } else {
                // POP AF: the low nibble of F stores as zero
                self.set_af(v);
            }
        } else if mid == 1 || mid == 3 {
            // RET / RETI
            let v = self.pop_16();
            self.m_tick();
            self.pc = v;
            if mid == 3 {
                self.ime = true;
            }
        } else if mid == 5 {
            // JP HL
            self.pc = self.get_hl();
        } else {
            // LD SP,HL
            self.sp = self.get_hl();
        }
    }

    /// Block 3, z=2: JP cond,u16, the 0xFF00+C loads, and the absolute
    /// accumulator loads.
    #[verifier::rlimit(100)]
    #[verifier::spinoff_prover]
    fn exec_b3_z2(&mut self, low: u8)
        requires
            old(self)@.wf(),
            low / 64 == 3,
            low % 8 == 2,
            old(self)@.instr_cycles == 1,
        ensures
            final(self)@ == crate::gb::step::step_b3_z2(old(self)@, low as u16),
            final(self)@.wf(),
            final(self)@.instr_cycles == mcycles(low as u16, taken_of(low as u16, old(self)@.f)),
    {
        proof {
            reveal(crate::gb::step::step_b3_z2);
            reveal(crate::gb::step::mcycles);
        }
        let mid = (low / 8) % 8;
        if mid < 4 {
            // JP cond,u16
            let lo = self.read_next();
            let hi = self.read_next();
            let taken = self.check_cond(mid);
            if taken {
                self.m_tick();
                self.pc = (hi as u16) * 0x100 + lo as u16;
            }
        } else if mid == 4 {
            // LD (0xFF00+C),A
            let addr = 0xFF00 + self.c_reg as u16;
            let a = self.a_reg;
            self.ld_mem(addr, a);
        } else if mid == 6 {
            // LD A,(0xFF00+C)
            let addr = 0xFF00 + self.c_reg as u16;
            let v = self.read_mem(addr);
            self.a_reg = v;
        } else if mid == 5 {
            // LD (u16),A
            let lo = self.read_next();
            let hi = self.read_next();
            let a = self.a_reg;
            self.ld_mem((hi as u16) * 0x100 + lo as u16, a);
        } else {
            // LD A,(u16)
            let lo = self.read_next();
            let hi = self.read_next();
            let v = self.read_mem((hi as u16) * 0x100 + lo as u16);
            self.a_reg = v;
        }
    }

    /// Block 3, z=3..5: JP u16, DI/EI, CALL (conditional and not),
    /// PUSH r16, and the illegal opcodes (trapped).
    #[verifier::rlimit(100)]
    #[verifier::spinoff_prover]
    fn exec_b3_jmp(&mut self, low: u8)
        requires
            old(self)@.wf(),
            low / 64 == 3,
            3 <= low % 8 <= 5,
            old(self)@.instr_cycles == 1,
        ensures
            final(self)@ == crate::gb::step::step_b3_jmp(old(self)@, low as u16),
            final(self)@.wf(),
            final(self)@.instr_cycles == mcycles(low as u16, taken_of(low as u16, old(self)@.f)),
    {
        proof {
            reveal(crate::gb::step::step_b3_jmp);
            reveal(crate::gb::step::mcycles);
        }
        let mid = (low / 8) % 8;
        let bot = low % 8;
        if bot == 3 {
            if low == 0xC3 {
                // JP u16
                let lo = self.read_next();
                let hi = self.read_next();
                self.m_tick();
                self.pc = (hi as u16) * 0x100 + lo as u16;
            } else if low == 0xF3 {
                // DI: the master latch clears at once
                self.ime = false;
            } else if low == 0xFB {
                // EI: the minimal core sets the master latch at once
                self.ime = true;
            } else {
                self.fault = Some(low as u16);
            }
        } else if bot == 4 {
            if mid < 4 {
                // CALL cond,u16: pushes the post-operand PC
                let lo = self.read_next();
                let hi = self.read_next();
                let taken = self.check_cond(mid);
                if taken {
                    let pc = self.pc;
                    self.push_16(pc);
                    self.pc = (hi as u16) * 0x100 + lo as u16;
                }
            } else {
                self.fault = Some(low as u16);
            }
        } else {
            if mid % 2 == 0 {
                // PUSH r16
                let v = if mid == 0 {
                    self.get_bc()
                } else if mid == 2 {
                    self.get_de()
                } else if mid == 4 {
                    self.get_hl()
                } else {
                    self.get_af()
                };
                self.push_16(v);
            } else if low == 0xCD {
                // CALL u16
                let lo = self.read_next();
                let hi = self.read_next();
                let pc = self.pc;
                self.push_16(pc);
                self.pc = (hi as u16) * 0x100 + lo as u16;
            } else {
                self.fault = Some(low as u16);
            }
        }
    }

    /// Block 3, z=6..7: ALU A,u8 and RST.
    #[verifier::rlimit(100)]
    #[verifier::spinoff_prover]
    fn exec_b3_alu(&mut self, low: u8)
        requires
            old(self)@.wf(),
            low / 64 == 3,
            6 <= low % 8,
            old(self)@.instr_cycles == 1,
        ensures
            final(self)@ == crate::gb::step::step_b3_alu(old(self)@, low as u16),
            final(self)@.wf(),
            final(self)@.instr_cycles == mcycles(low as u16, taken_of(low as u16, old(self)@.f)),
    {
        proof {
            reveal(crate::gb::step::step_b3_alu);
            reveal(crate::gb::step::mcycles);
        }
        let mid = (low / 8) % 8;
        let bot = low % 8;
        if bot == 6 {
            // ALU A,u8
            let imm = self.read_next();
            self.exec_alu(mid, imm);
        } else {
            // RST: push PC, jump to the fixed vector
            let pc = self.pc;
            self.push_16(pc);
            self.pc = (mid as u16) * 8;
        }
    }

    /// One ALU operation on A, selected by the middle octal digit:
    /// ADD, ADC, SUB, SBC, AND, XOR, OR, CP.
    fn exec_alu(&mut self, mid: u8, source: u8)
        requires
            old(self)@.wf(),
            mid < 8,
        ensures
            final(self)@ == crate::gb::step::alu_s(old(self)@, mid, source),
            final(self)@.wf(),
            final(self)@.instr_cycles == old(self)@.instr_cycles,
    {
        proof {
            reveal(crate::gb::step::alu_s);
        }
        if mid == 0 {
            let a = self.a_reg;
            self.a_reg = self.add_8(a, source, 0);
        } else if mid == 1 {
            let a = self.a_reg;
            let carry = (self.f_reg / 0x10) % 2;
            self.a_reg = self.add_8(a, source, carry);
        } else if mid == 2 {
            let a = self.a_reg;
            self.a_reg = self.sub_8(a, source, 0);
        } else if mid == 3 {
            let a = self.a_reg;
            let carry = (self.f_reg / 0x10) % 2;
            self.a_reg = self.sub_8(a, source, carry);
        } else if mid == 4 {
            self.a_reg = self.a_reg & source;
            let z = self.a_reg == 0;
            self.set_znhc(z, false, true, false);
        } else if mid == 5 {
            self.a_reg = self.a_reg ^ source;
            let z = self.a_reg == 0;
            self.set_znhc(z, false, false, false);
        } else if mid == 6 {
            self.a_reg = self.a_reg | source;
            let z = self.a_reg == 0;
            self.set_znhc(z, false, false, false);
        } else {
            // CP: compare without writing A back
            let a = self.a_reg;
            self.sub_8(a, source, 0);
        }
    }
}

impl Gameboy {
    /// Fetch the opcode at PC: one byte, or two when the first is the 0xCB
    /// prefix (the result is then 0xCB00 plus the second byte).
    fn fetch(&mut self) -> (op: u16)
        requires
            old(self)@.wf(),
        ensures
            final(self)@ == fetch_s(old(self)@).0,
            op == fetch_s(old(self)@).1,
            final(self)@.wf(),
            op < 0x100 || (0xCB00 <= op && op <= 0xCBFF),
            final(self)@.instr_cycles == crate::gb::arith::cyc(
                old(self)@.instr_cycles,
                if op >= 0x100 {
                    2int
                } else {
                    1int
                },
            ),
            final(self)@.f == old(self)@.f,
    {
        let higher = self.read_next();
        if higher == 0xCB {
            let lower = self.read_next();
            0xCB00 + lower as u16
        } else {
            higher as u16
        }
    }

    /// Execute one fetched instruction.
    fn execute(&mut self, op: u16)
        requires
            old(self)@.wf(),
            op < 0x100 || (0xCB00 <= op && op <= 0xCBFF),
            old(self)@.instr_cycles == (if op >= 0x100 {
                2u8
            } else {
                1u8
            }),
        ensures
            final(self)@ == step_op(old(self)@, op),
            final(self)@.wf(),
            final(self)@.instr_cycles == mcycles(op, taken_of(op, old(self)@.f)),
    {
        if op >= 0x100 {
            let low = (op % 0x100) as u8;
            self.exec_cb(low);
        } else {
            let low = op as u8;
            let block = low / 64;
            if block == 0 {
                self.exec_b0(low);
            } else if block == 1 {
                self.exec_b1(low);
            } else if block == 2 {
                self.exec_b2(low);
            } else {
                self.exec_b3(low);
            }
        }
    }

    /// Execute exactly one instruction (or one waiting cycle while halted;
    /// nothing once trapped). The machine cycles it consumes — memory
    /// accesses, internal delays and the fetch itself, each advancing the
    /// timer by 4 T-cycles — match the reference cycle table.
    pub fn tick(&mut self)
        requires
            old(self)@.wf(),
        ensures
            final(self)@ == step_tick(old(self)@),
            final(self)@.wf(),
            old(self)@.fault.is_none() && !old(self)@.halted ==> final(self)@.instr_cycles
                == tick_cycles(old(self)@),
    {
        if self.fault.is_some() {
            return;
        }
        self.instr_cycles = 0;
        if self.halted {
            self.m_tick();
            if self.mem.interrupt_pending() {
                self.halted = false;
            }
            return;
        }
        let op = self.fetch();
        self.execute(op);
    }
}

/// `2^flag` for a flag/bit index below 8.
fn weight_of(flag: u8) -> (w: u8)
    requires
        flag < 8,
    ensures
        w == bit_weight(flag),
{
    if flag == 0 {
        1
    } else if flag == 1 {
        2
    } else if flag == 2 {
        4
    } else if flag == 3 {
        8
    } else if flag == 4 {
        0x10
    } else if flag == 5 {
        0x20
    } else if flag == 6 {
        0x40
    } else {
        0x80
    }
}

} // verus!
