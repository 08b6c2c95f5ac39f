//! Mathematical model of the CPU: the machine state as seen through the
//! view of `Gameboy`, one spec transformer per instruction family, and the
//! reference machine-cycle table. The executable interpreter's contract is
//! that one `tick` equals one application of `step_tick`.

use vstd::prelude::*;

use crate::gb::arith::{
    bit_weight, c_flag, clear_bit8, cyc, flags, get_bit8, h_flag, n_flag, set_bit8, signed8, w16,
    w8, z_flag,
};
use crate::gb::mem::MemView;

verus! {

/// Mathematical model of the whole machine: CPU register file, interrupt
/// master latch, halt latch, trap state, the per-instruction machine-cycle
/// counter and the bus.
pub struct GbView {
    pub pc: u16,
    pub sp: u16,
    pub a: u8,
    pub b: u8,
    pub c: u8,
    pub d: u8,
    pub e: u8,
    pub f: u8,
    pub h: u8,
    pub l: u8,
    pub ime: bool,
    pub halted: bool,
    pub fault: Option<u16>,
    pub instr_cycles: u8,
    pub mem: MemView,
}

impl GbView {
    /// The low nibble of F is always zero, and the bus is well formed.
    pub open spec fn wf(self) -> bool {
        &&& self.mem.wf()
        &&& self.f % 16 == 0
    }

    pub open spec fn af(self) -> u16 {
        (self.a * 0x100 + self.f) as u16
    }

    pub open spec fn bc(self) -> u16 {
        (self.b * 0x100 + self.c) as u16
    }

    pub open spec fn de(self) -> u16 {
        (self.d * 0x100 + self.e) as u16
    }

    pub open spec fn hl(self) -> u16 {
        (self.h * 0x100 + self.l) as u16
    }

    /// Setting AF masks the low nibble of F to zero.
    pub open spec fn with_af(self, v: u16) -> GbView {
        GbView { a: (v / 0x100) as u8, f: ((v % 0x100) / 0x10 * 0x10) as u8, ..self }
    }

    pub open spec fn with_bc(self, v: u16) -> GbView {
        GbView { b: (v / 0x100) as u8, c: (v % 0x100) as u8, ..self }
    }

    pub open spec fn with_de(self, v: u16) -> GbView {
        GbView { d: (v / 0x100) as u8, e: (v % 0x100) as u8, ..self }
    }

    pub open spec fn with_hl(self, v: u16) -> GbView {
        GbView { h: (v / 0x100) as u8, l: (v % 0x100) as u8, ..self }
    }

    /// One machine cycle: a latched TIMA overflow from the previous cycle
    /// resolves, then the system clock advances by 4 T-cycles and the timer
    /// edge detector runs; the instruction's cycle counter advances.
    pub open spec fn m_ticked(self) -> GbView {
        GbView {
            mem: self.mem.check_overflow().inc_clk(),
            instr_cycles: cyc(self.instr_cycles, 1),
            ..self
        }
    }

    /// Fetch the byte at PC (one machine cycle) and advance PC.
    pub open spec fn read_next_s(self) -> (GbView, u8) {
        let s1 = self.m_ticked();
        (GbView { pc: w16(self.pc + 1), ..s1 }, s1.mem.read(self.pc))
    }

    /// A data read: one machine cycle, then the byte at `addr`.
    pub open spec fn read_mem_s(self, addr: u16) -> (GbView, u8) {
        let s1 = self.m_ticked();
        (s1, s1.mem.read(addr))
    }

    /// A data write: one machine cycle, then `v` stored at `addr`.
    pub open spec fn write_mem_s(self, addr: u16, v: u8) -> GbView {
        let s1 = self.m_ticked();
        GbView { mem: s1.mem.write(addr, v), ..s1 }
    }

    /// The register operand selected by a 3-bit index:
    /// B, C, D, E, H, L, the byte at (HL) — one extra machine cycle — or A.
    pub open spec fn get_r8_s(self, idx: u8) -> (GbView, u8) {
        if idx == 0 {
            (self, self.b)
        } else if idx == 1 {
            (self, self.c)
        } else if idx == 2 {
            (self, self.d)
        } else if idx == 3 {
            (self, self.e)
        } else if idx == 4 {
            (self, self.h)
        } else if idx == 5 {
            (self, self.l)
        } else if idx == 6 {
            self.read_mem_s(self.hl())
        } else {
            (self, self.a)
        }
    }

    /// Store to the register operand selected by a 3-bit index; index 6 is
    /// the byte at (HL) and costs one extra machine cycle.
    pub open spec fn set_r8_s(self, idx: u8, v: u8) -> GbView {
        if idx == 0 {
            GbView { b: v, ..self }
        } else if idx == 1 {
            GbView { c: v, ..self }
        } else if idx == 2 {
            GbView { d: v, ..self }
        } else if idx == 3 {
            GbView { e: v, ..self }
        } else if idx == 4 {
            GbView { h: v, ..self }
        } else if idx == 5 {
            GbView { l: v, ..self }
        } else if idx == 6 {
            self.write_mem_s(self.hl(), v)
        } else {
            GbView { a: v, ..self }
        }
    }

    /// Push a 16-bit value: one internal delay cycle, then the high byte at
    /// SP-1 and the low byte at SP-2, leaving SP decreased by two.
    pub open spec fn push_s(self, v: u16) -> GbView {
        let s1 = self.m_ticked();
        let s2 = GbView { sp: w16(s1.sp - 1), ..s1 };
        let s3 = s2.write_mem_s(s2.sp, (v / 0x100) as u8);
        let s4 = GbView { sp: w16(s3.sp - 1), ..s3 };
        s4.write_mem_s(s4.sp, (v % 0x100) as u8)
    }

    /// Pop a 16-bit value stored little-endian at SP, leaving SP increased
    /// by two.
    pub open spec fn pop_s(self) -> (GbView, u16) {
        let (s1, lo) = self.read_mem_s(self.sp);
        let s2 = GbView { sp: w16(s1.sp + 1), ..s1 };
        let (s3, hi) = s2.read_mem_s(s2.sp);
        let s4 = GbView { sp: w16(s3.sp + 1), ..s3 };
        (s4, (hi * 0x100 + lo) as u16)
    }
}

/// The condition encoded by two bits: NZ, Z, NC, C.
pub open spec fn cond_s(cc: u8, f: u8) -> bool {
    if cc == 0 {
        !z_flag(f)
    } else if cc == 1 {
        z_flag(f)
    } else if cc == 2 {
        !c_flag(f)
    } else {
        c_flag(f)
    }
}

// ---------------------------------------------------------------------
// ALU value and flag functions
// ---------------------------------------------------------------------

pub open spec fn add8_val(a: u8, b: u8, cin: u8) -> u8 {
    w8(a + b + cin)
}

/// ADD/ADC flags: Z from the result, N=0, H from a nibble carry,
/// C from a full carry.
pub open spec fn add8_flags(a: u8, b: u8, cin: u8) -> u8 {
    flags(w8(a + b + cin) == 0, false, a % 16 + b % 16 + cin > 0xF, a + b + cin > 0xFF)
}

pub open spec fn sub8_val(a: u8, b: u8, cin: u8) -> u8 {
    w8(a - b - cin)
}

/// SUB/SBC/CP flags: Z from the result, N=1, H from a nibble borrow,
/// C from a full borrow.
pub open spec fn sub8_flags(a: u8, b: u8, cin: u8) -> u8 {
    flags(w8(a - b - cin) == 0, true, (a % 16) < b % 16 + cin, (a as int) < b + cin)
}

pub open spec fn inc8_val(v: u8) -> u8 {
    w8(v + 1)
}

/// INC leaves C untouched.
pub open spec fn inc8_flags(v: u8, f: u8) -> u8 {
    flags(w8(v + 1) == 0, false, v % 16 == 0xF, c_flag(f))
}

pub open spec fn dec8_val(v: u8) -> u8 {
    w8(v - 1)
}

/// DEC leaves C untouched.
pub open spec fn dec8_flags(v: u8, f: u8) -> u8 {
    flags(w8(v - 1) == 0, true, v % 16 == 0, c_flag(f))
}

/// ADD HL,rr flags: Z untouched, N=0, H out of bit 11, C out of bit 15.
pub open spec fn add16_flags(hl: u16, rr: u16, f: u8) -> u8 {
    flags(z_flag(f), false, hl % 0x1000 + rr % 0x1000 > 0xFFF, hl + rr > 0xFFFF)
}

/// SP plus a signed immediate, wrapping.
pub open spec fn add_sp_val(sp: u16, v: u8) -> u16 {
    w16(sp + signed8(v))
}

/// ADD SP,i8 and LD HL,SP+i8 flags: Z=0, N=0, H and C from the unsigned
/// low byte of SP plus the immediate's byte.
pub open spec fn add_sp_flags(sp: u16, v: u8) -> u8 {
    flags(false, false, sp % 16 + v % 16 > 0xF, sp % 0x100 + v > 0xFF)
}

pub open spec fn rlc_val(v: u8) -> u8 {
    ((v % 0x80) * 2 + v / 0x80) as u8
}

pub open spec fn rrc_val(v: u8) -> u8 {
    (v / 2 + (v % 2) * 0x80) as u8
}

pub open spec fn rl_val(v: u8, cin: bool) -> u8 {
    ((v % 0x80) * 2 + if cin {
        1int
    } else {
        0int
    }) as u8
}

pub open spec fn rr_val(v: u8, cin: bool) -> u8 {
    (v / 2 + if cin {
        0x80int
    } else {
        0int
    }) as u8
}

pub open spec fn sla_val(v: u8) -> u8 {
    ((v % 0x80) * 2) as u8
}

/// SRA preserves bit 7.
pub open spec fn sra_val(v: u8) -> u8 {
    (v / 2 + (v / 0x80) * 0x80) as u8
}

pub open spec fn swap_val(v: u8) -> u8 {
    ((v % 0x10) * 0x10 + v / 0x10) as u8
}

/// SRL zero-fills.
pub open spec fn srl_val(v: u8) -> u8 {
    v / 2
}

/// Decimal adjustment of A after a BCD add or subtract: the value.
/// With N=0 the adjustment is additive (0x06 for a low-nibble overflow,
/// 0x60 for a high overflow); with N=1 it is subtractive, driven by the
/// H and C flags alone.
pub open spec fn daa_val(a: u8, f: u8) -> u8 {
    let lo_adj = (!n_flag(f) && a % 16 > 9) || h_flag(f);
    let hi_adj = (!n_flag(f) && a > 0x99) || c_flag(f);
    let offset = (if lo_adj {
        6int
    } else {
        0int
    }) + (if hi_adj {
        0x60int
    } else {
        0int
    });
    if n_flag(f) {
        w8(a - offset)
    } else {
        w8(a + offset)
    }
}

/// DAA flags: Z from the adjusted value, N untouched, H=0, C latched when
/// the high adjustment fired.
pub open spec fn daa_flags(a: u8, f: u8) -> u8 {
    let hi_adj = (!n_flag(f) && a > 0x99) || c_flag(f);
    flags(daa_val(a, f) == 0, n_flag(f), false, hi_adj)
}

/// The ALU operation selected by the middle octal digit, applied to A and
/// `v`: ADD, ADC, SUB, SBC, AND, XOR, OR, CP.
#[verifier::opaque]
pub open spec fn alu_s(s: GbView, mid: u8, v: u8) -> GbView {
    if mid == 0 {
        GbView { a: add8_val(s.a, v, 0), f: add8_flags(s.a, v, 0), ..s }
    } else if mid == 1 {
        let cin: u8 = if c_flag(s.f) {
            1u8
        } else {
            0u8
        };
        GbView { a: add8_val(s.a, v, cin), f: add8_flags(s.a, v, cin), ..s }
    } else if mid == 2 {
        GbView { a: sub8_val(s.a, v, 0), f: sub8_flags(s.a, v, 0), ..s }
    } else if mid == 3 {
        let cin: u8 = if c_flag(s.f) {
            1u8
        } else {
            0u8
        };
        GbView { a: sub8_val(s.a, v, cin), f: sub8_flags(s.a, v, cin), ..s }
    } else if mid == 4 {
        GbView { a: s.a & v, f: flags((s.a & v) == 0, false, true, false), ..s }
    } else if mid == 5 {
        GbView { a: s.a ^ v, f: flags((s.a ^ v) == 0, false, false, false), ..s }
    } else if mid == 6 {
        GbView { a: s.a | v, f: flags((s.a | v) == 0, false, false, false), ..s }
    } else {
        GbView { f: sub8_flags(s.a, v, 0), ..s }
    }
}

// ---------------------------------------------------------------------
// Instruction semantics, one spec transformer per opcode block
// ---------------------------------------------------------------------

/// CB-prefixed instructions: rotates/shifts/SWAP, BIT, RES, SET.
#[verifier::opaque]
pub open spec fn step_cb(s: GbView, low: u8) -> GbView {
    let block = low / 64;
    let mid = (low / 8) % 8;
    let bot = low % 8;
    let (s1, v) = s.get_r8_s(bot);
    if block == 0 {
        let cin = c_flag(s1.f);
        let r = if mid == 0 {
            rlc_val(v)
        } else if mid == 1 {
            rrc_val(v)
        } else if mid == 2 {
            rl_val(v, cin)
        } else if mid == 3 {
            rr_val(v, cin)
        } else if mid == 4 {
            sla_val(v)
        } else if mid == 5 {
            sra_val(v)
        } else if mid == 6 {
            swap_val(v)
        } else {
            srl_val(v)
        };
        let cout = if mid == 0 || mid == 2 || mid == 4 {
            v >= 0x80
        } else if mid == 6 {
            false
        } else {
            v % 2 == 1
        };
        (GbView { f: flags(r == 0, false, false, cout), ..s1 }).set_r8_s(bot, r)
    } else if block == 1 {
        // BIT: Z from the inverted selected bit, no writeback
        GbView { f: flags(!get_bit8(v, mid), false, true, c_flag(s1.f)), ..s1 }
    } else if block == 2 {
        s1.set_r8_s(bot, clear_bit8(v, mid))
    } else {
        s1.set_r8_s(bot, set_bit8(v, mid))
    }
}

/// Unprefixed block 0: NOP, STOP, LD (u16),SP, JR, 16-bit loads and
/// arithmetic, INC/DEC, LD r8,u8, and the accumulator/flag operations.
pub open spec fn step_b0(s: GbView, op: u16) -> GbView {
    let bot = op % 8;
    if bot == 0 {
        step_b0_ctl(s, op)
    } else if bot == 1 {
        step_b0_z1(s, op)
    } else if bot == 2 {
        step_b0_z2(s, op)
    } else if bot == 3 {
        step_b0_z3(s, op)
    } else if bot <= 6 {
        step_b0_r8(s, op)
    } else {
        step_b0_acc(s, op)
    }
}

/// Block 0, z=0: NOP, LD (u16),SP, STOP, JR.
#[verifier::opaque]
pub open spec fn step_b0_ctl(s: GbView, op: u16) -> GbView {
    let mid = ((op / 8) % 8) as u8;
    {
        if mid == 0 {
            s
        } else if mid == 1 {
            // LD (u16),SP: low byte then high byte
            let (s1, lo) = s.read_next_s();
            let (s2, hi) = s1.read_next_s();
            let addr = (hi * 0x100 + lo) as u16;
            let s3 = s2.write_mem_s(addr, (s2.sp % 0x100) as u8);
            s3.write_mem_s(w16(addr + 1), (s3.sp / 0x100) as u8)
        } else if mid == 2 {
            // STOP: trapped; it must not occur on a correct DMG program
            GbView { fault: Some(op), ..s }
        } else if mid == 3 {
            let (s1, d) = s.read_next_s();
            let s2 = s1.m_ticked();
            GbView { pc: w16(s2.pc + signed8(d)), ..s2 }
        } else {
            // JR cond: the displacement is fetched either way
            let (s1, d) = s.read_next_s();
            if cond_s(mid % 4, s1.f) {
                let s2 = s1.m_ticked();
                GbView { pc: w16(s2.pc + signed8(d)), ..s2 }
            } else {
                s1
            }
        }
    }
}

/// Block 0, z=1: LD r16,u16 and ADD HL,r16.
#[verifier::opaque]
pub open spec fn step_b0_z1(s: GbView, op: u16) -> GbView {
    let mid = ((op / 8) % 8) as u8;
    {
        if mid % 2 == 0 {
            // LD r16,u16
            let (s1, lo) = s.read_next_s();
            let (s2, hi) = s1.read_next_s();
            let v = (hi * 0x100 + lo) as u16;
            if mid == 0 {
                s2.with_bc(v)
            } else if mid == 2 {
                s2.with_de(v)
            } else if mid == 4 {
                s2.with_hl(v)
            } else {
                GbView { sp: v, ..s2 }
            }
        } else {
            // ADD HL,r16
            let rr = if mid == 1 {
                s.bc()
            } else if mid == 3 {
                s.de()
            } else if mid == 5 {
                s.hl()
            } else {
                s.sp
            };
            let s1 = GbView { f: add16_flags(s.hl(), rr, s.f), ..s.m_ticked() };
            s1.with_hl(w16(s.hl() + rr))
        }
    }
}

/// Block 0, z=2: LD (r16),A and LD A,(r16), with HL post-step.
#[verifier::opaque]
pub open spec fn step_b0_z2(s: GbView, op: u16) -> GbView {
    let mid = ((op / 8) % 8) as u8;
    {
        if mid % 2 == 0 {
            // LD (r16),A
            let addr = if mid == 0 {
                s.bc()
            } else if mid == 2 {
                s.de()
            } else {
                s.hl()
            };
            let s1 = s.write_mem_s(addr, s.a);
            if mid == 4 {
                s1.with_hl(w16(s1.hl() + 1))
            } else if mid == 6 {
                s1.with_hl(w16(s1.hl() - 1))
            } else {
                s1
            }
        } else {
            // LD A,(r16)
            let addr = if mid == 1 {
                s.bc()
            } else if mid == 3 {
                s.de()
            } else {
                s.hl()
            };
            let (s1, v) = s.read_mem_s(addr);
            let s2 = GbView { a: v, ..s1 };
            if mid == 5 {
                s2.with_hl(w16(s2.hl() + 1))
            } else if mid == 7 {
                s2.with_hl(w16(s2.hl() - 1))
            } else {
                s2
            }
        }
    }
}

/// Block 0, z=3: INC/DEC r16.
#[verifier::opaque]
pub open spec fn step_b0_z3(s: GbView, op: u16) -> GbView {
    let mid = ((op / 8) % 8) as u8;
    {
        // INC/DEC r16
        let s1 = s.m_ticked();
        let delta: int = if mid % 2 == 0 {
            1int
        } else {
            -1int
        };
        if mid / 2 == 0 {
            s1.with_bc(w16(s1.bc() + delta))
        } else if mid / 2 == 1 {
            s1.with_de(w16(s1.de() + delta))
        } else if mid / 2 == 2 {
            s1.with_hl(w16(s1.hl() + delta))
        } else {
            GbView { sp: w16(s1.sp + delta), ..s1 }
        }
    }
}

/// Block 0, z=4..6: INC r8, DEC r8, LD r8,u8.
#[verifier::opaque]
pub open spec fn step_b0_r8(s: GbView, op: u16) -> GbView {
    let mid = ((op / 8) % 8) as u8;
    let bot = (op % 8) as u8;
    if bot == 4 {
        // INC r8
        let (s1, v) = s.get_r8_s(mid);
        (GbView { f: inc8_flags(v, s1.f), ..s1 }).set_r8_s(mid, inc8_val(v))
    } else if bot == 5 {
        // DEC r8
        let (s1, v) = s.get_r8_s(mid);
        (GbView { f: dec8_flags(v, s1.f), ..s1 }).set_r8_s(mid, dec8_val(v))
    } else {
        // LD r8,u8
        let (s1, imm) = s.read_next_s();
        s1.set_r8_s(mid, imm)
    }
}

/// Block 0, z=7: RLCA/RRCA/RLA/RRA, DAA, CPL, SCF, CCF.
#[verifier::opaque]
pub open spec fn step_b0_acc(s: GbView, op: u16) -> GbView {
    let mid = ((op / 8) % 8) as u8;
    {
        if mid == 0 {
            // RLCA: Z forced to 0, unlike the CB rotate
            GbView { a: rlc_val(s.a), f: flags(false, false, false, s.a >= 0x80), ..s }
        } else if mid == 1 {
            GbView { a: rrc_val(s.a), f: flags(false, false, false, s.a % 2 == 1), ..s }
        } else if mid == 2 {
            GbView { a: rl_val(s.a, c_flag(s.f)), f: flags(false, false, false, s.a >= 0x80), ..s }
        } else if mid == 3 {
            GbView {
                a: rr_val(s.a, c_flag(s.f)),
                f: flags(false, false, false, s.a % 2 == 1),
                ..s
            }
        } else if mid == 4 {
            GbView { a: daa_val(s.a, s.f), f: daa_flags(s.a, s.f), ..s }
        } else if mid == 5 {
            // CPL
            GbView { a: (255 - s.a) as u8, f: flags(z_flag(s.f), true, true, c_flag(s.f)), ..s }
        } else if mid == 6 {
            // SCF
            GbView { f: flags(z_flag(s.f), false, false, true), ..s }
        } else {
            // CCF
            GbView { f: flags(z_flag(s.f), false, false, !c_flag(s.f)), ..s }
        }
    }
}

/// Unprefixed block 1: LD r8,r8 and HALT.
#[verifier::opaque]
pub open spec fn step_b1(s: GbView, op: u16) -> GbView {
    if op == 0x76 {
        GbView { halted: true, ..s }
    } else {
        let mid = ((op / 8) % 8) as u8;
        let bot = (op % 8) as u8;
        let (s1, v) = s.get_r8_s(bot);
        s1.set_r8_s(mid, v)
    }
}

/// Unprefixed block 2: the eight ALU operations on A and a register
/// operand.
pub open spec fn step_b2(s: GbView, op: u16) -> GbView {
    let mid = ((op / 8) % 8) as u8;
    let bot = (op % 8) as u8;
    let (s1, v) = s.get_r8_s(bot);
    alu_s(s1, mid, v)
}

/// Unprefixed block 3: conditional and unconditional control flow, stack
/// operations, the 0xFF00-page loads, ALU on an immediate, RST, DI/EI,
/// and the illegal opcodes (trapped).
pub open spec fn step_b3(s: GbView, op: u16) -> GbView {
    let bot = op % 8;
    if bot == 0 {
        step_b3_z0(s, op)
    } else if bot == 1 {
        step_b3_z1(s, op)
    } else if bot == 2 {
        step_b3_z2(s, op)
    } else if bot <= 5 {
        step_b3_jmp(s, op)
    } else {
        step_b3_alu(s, op)
    }
}

/// Block 3, z=0: RET cond, the 0xFF00-page immediate loads, and the
/// SP-plus-immediate forms.
#[verifier::opaque]
pub open spec fn step_b3_z0(s: GbView, op: u16) -> GbView {
    let mid = ((op / 8) % 8) as u8;
    {
        if mid < 4 {
            // RET cond
            let s1 = s.m_ticked();
            if cond_s(mid, s1.f) {
                let (s2, v) = s1.pop_s();
                let s3 = s2.m_ticked();
                GbView { pc: v, ..s3 }
            } else {
                s1
            }
        } else if mid == 4 {
            // LD (0xFF00+u8),A
            let (s1, off) = s.read_next_s();
            s1.write_mem_s((0xFF00 + off) as u16, s1.a)
        } else if mid == 6 {
            // LD A,(0xFF00+u8)
            let (s1, off) = s.read_next_s();
            let (s2, v) = s1.read_mem_s((0xFF00 + off) as u16);
            GbView { a: v, ..s2 }
        } else if mid == 5 {
            // ADD SP,i8
            let (s1, d) = s.read_next_s();
            let s2 = s1.m_ticked().m_ticked();
            GbView { sp: add_sp_val(s2.sp, d), f: add_sp_flags(s2.sp, d), ..s2 }
        } else {
            // LD HL,SP+i8
            let (s1, d) = s.read_next_s();
            let s2 = s1.m_ticked();
            (GbView { f: add_sp_flags(s2.sp, d), ..s2 }).with_hl(add_sp_val(s2.sp, d))
        }
    }
}

/// Block 3, z=1: POP r16, RET, RETI, JP HL, LD SP,HL.
#[verifier::opaque]
pub open spec fn step_b3_z1(s: GbView, op: u16) -> GbView {
    let mid = ((op / 8) % 8) as u8;
    {
        if mid % 2 == 0 {
            // POP r16
            let (s1, v) = s.pop_s();
            if mid == 0 {
                s1.with_bc(v)
            } else if mid == 2 {
                s1.with_de(v)
            } else if mid == 4 {
                s1.with_hl(v)
            } else {
                // POP AF masks the low nibble of F to zero
                s1.with_af(v)
            }
        } else if mid == 1 {
            // RET
            let (s1, v) = s.pop_s();
            let s2 = s1.m_ticked();
            GbView { pc: v, ..s2 }
        } else if mid == 3 {
            // RETI
            let (s1, v) = s.pop_s();
            let s2 = s1.m_ticked();
            GbView { pc: v, ime: true, ..s2 }
        } else if mid == 5 {
            // JP HL
            GbView { pc: s.hl(), ..s }
        } else {
            // LD SP,HL
            GbView { sp: s.hl(), ..s }
        }
    }
}

/// Block 3, z=2: JP cond,u16, the 0xFF00+C loads, and the absolute
/// accumulator loads.
#[verifier::opaque]
pub open spec fn step_b3_z2(s: GbView, op: u16) -> GbView {
    let mid = ((op / 8) % 8) as u8;
    {
        if mid < 4 {
            // JP cond,u16
            let (s1, lo) = s.read_next_s();
            let (s2, hi) = s1.read_next_s();
            if cond_s(mid, s2.f) {
                let s3 = s2.m_ticked();
                GbView { pc: (hi * 0x100 + lo) as u16, ..s3 }
            } else {
                s2
            }
        } else if mid == 4 {
            // LD (0xFF00+C),A
            s.write_mem_s((0xFF00 + s.c) as u16, s.a)
        } else if mid == 6 {
            // LD A,(0xFF00+C)
            let (s1, v) = s.read_mem_s((0xFF00 + s.c) as u16);
            GbView { a: v, ..s1 }
        } else if mid == 5 {
            // LD (u16),A
            let (s1, lo) = s.read_next_s();
            let (s2, hi) = s1.read_next_s();
            s2.write_mem_s((hi * 0x100 + lo) as u16, s2.a)
        } else {
            // LD A,(u16)
            let (s1, lo) = s.read_next_s();
            let (s2, hi) = s1.read_next_s();
            let (s3, v) = s2.read_mem_s((hi * 0x100 + lo) as u16);
            GbView { a: v, ..s3 }
        }
    }
}

/// Block 3, z=3..5: JP u16, DI/EI, CALL (conditional and not), PUSH r16,
/// and the illegal opcodes (trapped).
#[verifier::opaque]
pub open spec fn step_b3_jmp(s: GbView, op: u16) -> GbView {
    let mid = ((op / 8) % 8) as u8;
    let bot = (op % 8) as u8;
    if bot == 3 {
        if op == 0xC3 {
            // JP u16
            let (s1, lo) = s.read_next_s();
            let (s2, hi) = s1.read_next_s();
            let s3 = s2.m_ticked();
            GbView { pc: (hi * 0x100 + lo) as u16, ..s3 }
        } else if op == 0xF3 {
            GbView { ime: false, ..s }
        } else if op == 0xFB {
            GbView { ime: true, ..s }
        } else {
            GbView { fault: Some(op), ..s }
        }
    } else if bot == 4 {
        if mid < 4 {
            // CALL cond,u16: pushes the post-operand PC
            let (s1, lo) = s.read_next_s();
            let (s2, hi) = s1.read_next_s();
            if cond_s(mid, s2.f) {
                let s3 = s2.push_s(s2.pc);
                GbView { pc: (hi * 0x100 + lo) as u16, ..s3 }
            } else {
                s2
            }
        } else {
            GbView { fault: Some(op), ..s }
        }
    } else {
        if mid % 2 == 0 {
            // PUSH r16
            let v = if mid == 0 {
                s.bc()
            } else if mid == 2 {
                s.de()
            } else if mid == 4 {
                s.hl()
            } else {
                s.af()
            };
            s.push_s(v)
        } else if op == 0xCD {
            // CALL u16
            let (s1, lo) = s.read_next_s();
            let (s2, hi) = s1.read_next_s();
            let s3 = s2.push_s(s2.pc);
            GbView { pc: (hi * 0x100 + lo) as u16, ..s3 }
        } else {
            GbView { fault: Some(op), ..s }
        }
    }
}

/// Block 3, z=6..7: ALU A,u8 and RST.
#[verifier::opaque]
pub open spec fn step_b3_alu(s: GbView, op: u16) -> GbView {
    let mid = ((op / 8) % 8) as u8;
    let bot = (op % 8) as u8;
    if bot == 6 {
        // ALU A,u8
        let (s1, imm) = s.read_next_s();
        alu_s(s1, mid, imm)
    } else {
        // RST: push PC, jump to the fixed vector
        let s1 = s.push_s(s.pc);
        GbView { pc: (mid * 8) as u16, ..s1 }
    }
}

/// One instruction, fetched opcode `op` (0xCB00 + low byte when prefixed).
pub open spec fn step_op(s: GbView, op: u16) -> GbView {
    if op >= 0x100 {
        step_cb(s, (op % 0x100) as u8)
    } else {
        let block = op / 64;
        if block == 0 {
            step_b0(s, op)
        } else if block == 1 {
            step_b1(s, op)
        } else if block == 2 {
            step_b2(s, op)
        } else {
            step_b3(s, op)
        }
    }
}

/// Fetch: the byte at PC, and a second byte when the first is the 0xCB
/// prefix.
pub open spec fn fetch_s(s: GbView) -> (GbView, u16) {
    let (s1, b) = s.read_next_s();
    if b == 0xCB {
        let (s2, b2) = s1.read_next_s();
        (s2, (0xCB00 + b2) as u16)
    } else {
        (s1, b as u16)
    }
}

/// One call of `tick`: nothing once trapped; while halted, one machine
/// cycle and a wake-up check against `IF & IE & 0x1F`; otherwise fetch and
/// execute one instruction, with the cycle counter cleared first.
pub open spec fn step_tick(s: GbView) -> GbView {
    if s.fault.is_some() {
        s
    } else if s.halted {
        let s1 = (GbView { instr_cycles: 0, ..s }).m_ticked();
        if s1.mem.pending_interrupt() {
            GbView { halted: false, ..s1 }
        } else {
            s1
        }
    } else {
        let s0 = GbView { instr_cycles: 0, ..s };
        let fetched = fetch_s(s0);
        step_op(fetched.0, fetched.1)
    }
}

// ---------------------------------------------------------------------
// Reference machine-cycle table
// ---------------------------------------------------------------------

/// Whether `op` is one of the conditional branches (JR cond, RET cond,
/// JP cond, CALL cond), whose cost depends on the condition.
pub open spec fn is_conditional(op: u16) -> bool {
    op < 0x100 && {
        let block = op / 64;
        let mid = (op / 8) % 8;
        let bot = op % 8;
        (block == 0 && bot == 0 && mid >= 4) || (block == 3 && mid < 4 && (bot == 0 || bot == 2
            || bot == 4))
    }
}

/// Whether the conditional branch `op` is taken under flag register `f`;
/// true for every unconditional instruction.
pub open spec fn taken_of(op: u16, f: u8) -> bool {
    if is_conditional(op) {
        cond_s(((op / 8) % 4) as u8, f)
    } else {
        true
    }
}

/// The reference machine-cycle cost of one instruction, fetch included:
/// one cycle for the fetch (two with the CB prefix), one per memory
/// access, and the documented internal-delay extras. Trapped opcodes
/// (STOP and the illegal encodings) consume only their fetch.
#[verifier::opaque]
pub open spec fn mcycles(op: u16, taken: bool) -> u8 {
    if op >= 0x100 {
        let low = op % 0x100;
        let block = low / 64;
        let bot = low % 8;
        if bot != 6 {
            2
        } else if block == 1 {
            3
        } else {
            4
        }
    } else {
        let block = op / 64;
        let mid = (op / 8) % 8;
        let bot = op % 8;
        if block == 0 {
            if bot == 0 {
                if mid == 0 {
                    1
                } else if mid == 1 {
                    5
                } else if mid == 2 {
                    1
                } else if mid == 3 {
                    3
                } else if taken {
                    3
                } else {
                    2
                }
            } else if bot == 1 {
                if mid % 2 == 0 {
                    3
                } else {
                    2
                }
            } else if bot == 2 {
                2
            } else if bot == 3 {
                2
            } else if bot == 4 || bot == 5 {
                if mid == 6 {
                    3
                } else {
                    1
                }
            } else if bot == 6 {
                if mid == 6 {
                    3
                } else {
                    2
                }
            } else {
                1
            }
        } else if block == 1 {
            if op == 0x76 {
                1
            } else if mid == 6 || bot == 6 {
                2
            } else {
                1
            }
        } else if block == 2 {
            if bot == 6 {
                2
            } else {
                1
            }
        } else {
            if bot == 0 {
                if mid < 4 {
                    if taken {
                        5
                    } else {
                        2
                    }
                } else if mid == 4 || mid == 6 {
                    3
                } else if mid == 5 {
                    4
                } else {
                    3
                }
            } else if bot == 1 {
                if mid % 2 == 0 {
                    3
                } else if mid == 1 || mid == 3 {
                    4
                } else {
                    1
                }
            } else if bot == 2 {
                if mid < 4 {
                    if taken {
                        4
                    } else {
                        3
                    }
                } else if mid == 4 || mid == 6 {
                    2
                } else {
                    4
                }
            } else if bot == 3 {
                if op == 0xC3 {
                    4
                } else {
                    1
                }
            } else if bot == 4 {
                if mid < 4 {
                    if taken {
                        6
                    } else {
                        3
                    }
                } else {
                    1
                }
            } else if bot == 5 {
                if mid % 2 == 0 {
                    4
                } else if op == 0xCD {
                    6
                } else {
                    1
                }
            } else if bot == 6 {
                2
            } else {
                4
            }
        }
    }
}

/// The machine cycles one `tick` consumes from a running (neither trapped
/// nor halted) state: the cost of the fetched instruction, with
/// conditionals decided by the current flags.
pub open spec fn tick_cycles(s: GbView) -> u8 {
    let fetched = fetch_s(GbView { instr_cycles: 0, ..s });
    mcycles(fetched.1, taken_of(fetched.1, s.f))
}

/// Power-on state: DMG post-boot-ROM register values.
pub open spec fn initial_gb() -> GbView {
    GbView {
        pc: 0x100,
        sp: 0xFFFE,
        a: 0x01,
        b: 0x00,
        c: 0x13,
        d: 0x00,
        e: 0xD8,
        f: 0xB0,
        h: 0x01,
        l: 0x4D,
        ime: false,
        halted: false,
        fault: None,
        instr_cycles: 0,
        mem: crate::gb::mem::initial_mem(),
    }
}

} // verus!
