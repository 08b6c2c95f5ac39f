//! Whole-instruction behaviour through `tick`: control flow, cycle counts,
//! traps, and memory-operand instructions. Programs are placed at the
//! power-on PC, 0x0100.

use dmg_core::gb::Gameboy;

const Z: u8 = 7;
const C: u8 = 4;

/// A machine with `code` loaded at the power-on PC.
fn boot(code: &[u8]) -> Gameboy {
    let mut rom = vec![0u8; 0x100];
    rom.extend_from_slice(code);
    let mut gb = Gameboy::new();
    assert!(gb.load_rom(&rom));
    gb
}

#[test]
fn nop_costs_one_cycle() {
    let mut gb = boot(&[0x00]);
    gb.tick();
    assert_eq!(gb.get_pc(), 0x0101);
    assert_eq!(gb.get_cycles(), 1);
}

#[test]
fn jr_not_taken_two_cycles_taken_three() {
    // JR NZ,+2 at 0x100; with Z=1 it falls through, with Z=0 it jumps.
    let mut gb = boot(&[0x20, 0x02, 0x00, 0x00, 0x00]);
    gb.set_flag(Z, true);
    gb.tick();
    assert_eq!(gb.get_pc(), 0x0102);
    assert_eq!(gb.get_cycles(), 2);

    let mut gb2 = boot(&[0x20, 0x02, 0x00, 0x00, 0x00]);
    gb2.set_flag(Z, false);
    gb2.tick();
    assert_eq!(gb2.get_pc(), 0x0104);
    assert_eq!(gb2.get_cycles(), 3);
}

#[test]
fn jr_backwards_displacement_is_signed() {
    // JR -2 jumps back onto the instruction itself.
    let mut gb = boot(&[0x18, 0xFE]);
    gb.tick();
    assert_eq!(gb.get_pc(), 0x0100);
    assert_eq!(gb.get_cycles(), 3);
}

#[test]
fn rst_vectors_and_pushes_pc() {
    let mut gb = boot(&[0xFF]);
    let sp0 = gb.get_sp();
    gb.tick();
    assert_eq!(gb.get_pc(), 0x0038);
    assert_eq!(gb.get_sp(), sp0.wrapping_sub(2));
    assert_eq!(gb.get_cycles(), 4);
    // The post-opcode PC sits little-endian on the stack.
    let ret = gb.pop_16();
    assert_eq!(ret, 0x0101);
    assert_eq!(gb.get_sp(), sp0);
}

#[test]
fn call_and_ret_cycles() {
    // CALL 0x0110; at 0x110: RET.
    let mut code = vec![0xCDu8, 0x10, 0x01];
    code.resize(0x10, 0);
    code.push(0xC9);
    let mut gb = boot(&code);
    gb.tick();
    assert_eq!(gb.get_pc(), 0x0110);
    assert_eq!(gb.get_cycles(), 6);
    gb.tick();
    assert_eq!(gb.get_pc(), 0x0103);
    assert_eq!(gb.get_cycles(), 4);
}

#[test]
fn conditional_ret_and_call_timing() {
    // RET NZ with Z=1: not taken, 2 cycles.
    let mut gb = boot(&[0xC0]);
    gb.set_flag(Z, true);
    gb.tick();
    assert_eq!(gb.get_cycles(), 2);
    // CALL NZ with Z=1: not taken, 3 cycles.
    let mut gb2 = boot(&[0xC4, 0x00, 0x02]);
    gb2.set_flag(Z, true);
    gb2.tick();
    assert_eq!(gb2.get_cycles(), 3);
    assert_eq!(gb2.get_pc(), 0x0103);
}

#[test]
fn jp_unconditional_and_conditional() {
    let mut gb = boot(&[0xC3, 0x00, 0x02]);
    gb.tick();
    assert_eq!(gb.get_pc(), 0x0200);
    assert_eq!(gb.get_cycles(), 4);

    // JP C,u16 with C=0: not taken, 3 cycles.
    let mut gb2 = boot(&[0xDA, 0x00, 0x02]);
    gb2.set_flag(C, false);
    gb2.tick();
    assert_eq!(gb2.get_pc(), 0x0103);
    assert_eq!(gb2.get_cycles(), 3);
}

#[test]
fn taken_conditionals_pay_the_extra_cycles() {
    // JP Z,u16 taken: 4 cycles.
    let mut gb = boot(&[0xCA, 0x00, 0x02]);
    gb.set_flag(Z, true);
    gb.tick();
    assert_eq!(gb.get_pc(), 0x0200);
    assert_eq!(gb.get_cycles(), 4);

    // CALL Z then RET Z, both taken: 6 and 5 cycles.
    let mut code = vec![0xCCu8, 0x10, 0x01];
    code.resize(0x10, 0);
    code.push(0xC8);
    let mut gb2 = boot(&code);
    gb2.set_flag(Z, true);
    gb2.tick();
    assert_eq!(gb2.get_pc(), 0x0110);
    assert_eq!(gb2.get_cycles(), 6);
    gb2.tick();
    assert_eq!(gb2.get_pc(), 0x0103);
    assert_eq!(gb2.get_cycles(), 5);
}

#[test]
fn ld_r16_immediate_and_indirect_a() {
    // LD BC,0xC050; LD (BC),A; LD A,(BC).
    let mut gb = boot(&[0x01, 0x50, 0xC0, 0x02, 0x3E, 0x00, 0x0A]);
    gb.set_af(0x6600);
    gb.tick();
    assert_eq!(gb.get_bc(), 0xC050);
    assert_eq!(gb.get_cycles(), 3);
    gb.tick();
    assert_eq!(gb.get_cycles(), 2);
    gb.tick(); // LD A,0
    gb.tick(); // LD A,(BC)
    assert_eq!(gb.get_af() >> 8, 0x66);
    assert_eq!(gb.get_cycles(), 2);
}

#[test]
fn push_af_pop_af_masks_low_nibble() {
    // PUSH BC; POP AF: the pushed low byte 0x34 stores into F as 0x30.
    let mut gb = boot(&[0xC5, 0xF1]);
    gb.set_bc(0x1234);
    gb.tick();
    assert_eq!(gb.get_cycles(), 4);
    gb.tick();
    assert_eq!(gb.get_cycles(), 3);
    assert_eq!(gb.get_af(), 0x1230);

    // PUSH AF; POP AF round trip.
    let mut gb2 = boot(&[0xF5, 0xF1]);
    gb2.set_af(0x1234);
    gb2.tick();
    gb2.tick();
    assert_eq!(gb2.get_af(), 0x1230);
}

#[test]
fn daa_after_bcd_add() {
    // A=0x27; ADD A,0x15; DAA -> 0x42 with Z=0, H=0.
    let mut gb = boot(&[0xC6, 0x15, 0x27]);
    gb.set_af(0x2700);
    gb.tick();
    assert_eq!(gb.get_af() >> 8, 0x3C);
    gb.tick();
    assert_eq!(gb.get_af() >> 8, 0x42);
    assert_eq!(gb.read_flag(Z), 0);
    assert_eq!(gb.read_flag(5), 0);
    assert_eq!(gb.get_cycles(), 1);
}

#[test]
fn cpl_twice_is_identity() {
    let mut gb = boot(&[0x2F, 0x2F]);
    gb.set_af(0x5A00);
    gb.tick();
    assert_eq!(gb.get_af() >> 8, 0xA5);
    gb.tick();
    assert_eq!(gb.get_af() >> 8, 0x5A);
}

#[test]
fn swap_twice_is_identity() {
    // CB 0x37: SWAP A, twice.
    let mut gb = boot(&[0xCB, 0x37, 0xCB, 0x37]);
    gb.set_af(0xB700);
    gb.tick();
    assert_eq!(gb.get_af() >> 8, 0x7B);
    assert_eq!(gb.get_cycles(), 2);
    gb.tick();
    assert_eq!(gb.get_af() >> 8, 0xB7);
}

#[test]
fn cb_bit_res_set() {
    // BIT 7,A with bit clear sets Z; SET 7,A; BIT 7,A clears Z; RES 7,A.
    let mut gb = boot(&[0xCB, 0x7F, 0xCB, 0xFF, 0xCB, 0x7F, 0xCB, 0xBF]);
    gb.set_af(0x0000);
    gb.tick();
    assert_eq!(gb.read_flag(Z), 1);
    gb.tick();
    assert_eq!(gb.get_af() >> 8, 0x80);
    gb.tick();
    assert_eq!(gb.read_flag(Z), 0);
    gb.tick();
    assert_eq!(gb.get_af() >> 8, 0x00);
}

#[test]
fn ld_u16_sp_stores_both_bytes() {
    // LD (0xC000),SP; then LD A,(0xC000); LD A,(0xC001).
    let mut gb = boot(&[0x08, 0x00, 0xC0, 0xFA, 0x00, 0xC0, 0xFA, 0x01, 0xC0]);
    gb.tick();
    assert_eq!(gb.get_cycles(), 5);
    gb.tick();
    assert_eq!(gb.get_af() >> 8, 0xFE);
    assert_eq!(gb.get_cycles(), 4);
    gb.tick();
    assert_eq!(gb.get_af() >> 8, 0xFF);
}

#[test]
fn ld_hl_sp_plus_and_add_sp() {
    // LD HL,SP-1: SP=0xFFFE -> HL=0xFFFD, H and C from the low byte.
    let mut gb = boot(&[0xF8, 0xFF, 0xE8, 0x02]);
    gb.tick();
    assert_eq!(gb.get_hl(), 0xFFFD);
    assert_eq!(gb.read_flag(5), 1);
    assert_eq!(gb.read_flag(C), 1);
    assert_eq!(gb.read_flag(Z), 0);
    assert_eq!(gb.get_cycles(), 3);
    // ADD SP,2 wraps 0xFFFE to 0x0000.
    gb.tick();
    assert_eq!(gb.get_sp(), 0x0000);
    assert_eq!(gb.get_cycles(), 4);
}

#[test]
fn add_hl_sets_half_carry_from_bit_11() {
    // ADD HL,BC with HL=0x0FFF, BC=0x0001.
    let mut gb = boot(&[0x09]);
    gb.set_hl(0x0FFF);
    gb.set_bc(0x0001);
    gb.tick();
    assert_eq!(gb.get_hl(), 0x1000);
    assert_eq!(gb.read_flag(5), 1);
    assert_eq!(gb.read_flag(C), 0);
    assert_eq!(gb.get_cycles(), 2);
}

#[test]
fn hl_indirect_with_post_step() {
    // LD (HL+),A; LD (HL-),A; LD A,(HL).
    let mut gb = boot(&[0x22, 0x32, 0x7E]);
    gb.set_hl(0xC100);
    gb.set_af(0x4200);
    gb.tick();
    assert_eq!(gb.get_hl(), 0xC101);
    assert_eq!(gb.get_cycles(), 2);
    gb.tick();
    assert_eq!(gb.get_hl(), 0xC100);
    gb.tick();
    // (HL)=0xC100 holds the first store.
    assert_eq!(gb.get_af() >> 8, 0x42);
    assert_eq!(gb.get_cycles(), 2);
}

#[test]
fn ldh_page_loads() {
    // LD (0xFF00+0x80),A; LD A,(0xFF00+0x80).
    let mut gb = boot(&[0xE0, 0x80, 0x3E, 0x00, 0xF0, 0x80]);
    gb.set_af(0x7700);
    gb.tick();
    assert_eq!(gb.get_cycles(), 3);
    gb.tick(); // LD A,0x00
    assert_eq!(gb.get_af() >> 8, 0x00);
    gb.tick();
    assert_eq!(gb.get_af() >> 8, 0x77);
    assert_eq!(gb.get_cycles(), 3);
}

#[test]
fn alu_immediate_forms() {
    // XOR A,A; OR A,0x0F; AND A,0x3C; CP A,0x0C; SUB A,0x0C.
    let mut gb = boot(&[0xAF, 0xF6, 0x0F, 0xE6, 0x3C, 0xFE, 0x0C, 0xD6, 0x0C]);
    gb.tick();
    assert_eq!(gb.get_af(), 0x0080); // A=0, Z set
    gb.tick();
    assert_eq!(gb.get_af() >> 8, 0x0F);
    assert_eq!(gb.get_cycles(), 2);
    gb.tick();
    assert_eq!(gb.get_af(), 0x0C20); // AND sets H
    gb.tick();
    assert_eq!(gb.get_af() >> 8, 0x0C); // CP leaves A
    assert_eq!(gb.read_flag(Z), 1);
    gb.tick();
    assert_eq!(gb.get_af() >> 8, 0x00);
    assert_eq!(gb.read_flag(Z), 1);
}

#[test]
fn halt_suspends_until_interrupt() {
    // HALT; then ticks burn one cycle each while suspended.
    let mut gb = boot(&[0x76, 0x00]);
    gb.tick();
    assert!(gb.get_halted());
    let pc = gb.get_pc();
    gb.tick();
    assert!(gb.get_halted());
    assert_eq!(gb.get_pc(), pc);
    assert_eq!(gb.get_cycles(), 1);
}

#[test]
fn halt_wakes_on_pending_interrupt() {
    // LD A,0x01; LDH (0xFF),A enables the VBlank interrupt, which the
    // power-on IF already requests; HALT then lasts one waiting tick.
    let mut gb = boot(&[0x3E, 0x01, 0xE0, 0xFF, 0x76, 0x00]);
    gb.tick();
    gb.tick();
    gb.tick();
    assert!(gb.get_halted());
    let pc = gb.get_pc();
    gb.tick();
    assert!(!gb.get_halted());
    assert_eq!(gb.get_pc(), pc);
    gb.tick();
    assert_eq!(gb.get_pc(), pc.wrapping_add(1));
}

#[test]
fn illegal_opcode_traps() {
    let mut gb = boot(&[0xD3, 0x00]);
    gb.tick();
    assert_eq!(gb.get_fault(), Some(0x00D3));
    let pc = gb.get_pc();
    // A trapped CPU ignores further ticks.
    gb.tick();
    assert_eq!(gb.get_pc(), pc);
    assert_eq!(gb.get_fault(), Some(0x00D3));
}

#[test]
fn stop_traps() {
    let mut gb = boot(&[0x10, 0x00]);
    gb.tick();
    assert_eq!(gb.get_fault(), Some(0x0010));
}

#[test]
fn di_ei_toggle_the_master_latch() {
    let mut gb = boot(&[0xFB, 0xF3]);
    gb.tick();
    assert!(gb.get_ime());
    assert_eq!(gb.get_cycles(), 1);
    gb.tick();
    assert!(!gb.get_ime());
}

#[test]
fn timer_overflow_requests_interrupt_through_cpu_cycles() {
    // TAC=0x05 (enabled, clock bit 3: one TIMA step per four machine
    // cycles); clear IF; TIMA=0xFF; idle; then read IF and expect the
    // timer request (bit 2) with the upper bits reading as ones.
    let mut code = vec![
        0x3Eu8, 0x05, 0xE0, 0x07, // LD A,0x05; LDH (0x07),A
        0x3E, 0x00, 0xE0, 0x0F, // LD A,0x00; LDH (0x0F),A
        0x3E, 0xFF, 0xE0, 0x05, // LD A,0xFF; LDH (0x05),A
    ];
    for _ in 0..8 {
        code.push(0x00);
    }
    code.push(0xF0);
    code.push(0x0F); // LDH A,(0x0F)
    let mut gb = boot(&code);
    for _ in 0..15 {
        gb.tick();
    }
    let if_reg = (gb.get_af() >> 8) as u8;
    assert_eq!(if_reg & 0x04, 0x04);
    assert_eq!(if_reg & 0xE0, 0xE0);
}

#[test]
fn serial_bytes_reach_the_tap() {
    // LD A,'o'; LD (0xFF01),A; LD A,'k'; LD (0xFF01),A.
    let mut gb = boot(&[0x3E, 0x6F, 0xE0, 0x01, 0x3E, 0x6B, 0xE0, 0x01]);
    for _ in 0..4 {
        gb.tick();
    }
    assert_eq!(gb.take_serial(), vec![0x6Fu8, 0x6B]);
    assert!(gb.take_serial().is_empty());
}

#[test]
fn inc_dec_r16_wrap() {
    let mut gb = boot(&[0x03, 0x0B]);
    gb.set_bc(0xFFFF);
    gb.tick();
    assert_eq!(gb.get_bc(), 0x0000);
    assert_eq!(gb.get_cycles(), 2);
    gb.tick();
    assert_eq!(gb.get_bc(), 0xFFFF);
    assert_eq!(gb.get_cycles(), 2);
}

#[test]
fn jp_hl_and_ld_sp_hl() {
    let mut code = vec![0xE9u8];
    code.resize(0x100, 0);
    code.push(0xF9); // at 0x0200
    let mut gb = boot(&code);
    gb.set_hl(0x0200);
    gb.tick();
    assert_eq!(gb.get_pc(), 0x0200);
    assert_eq!(gb.get_cycles(), 1);
    gb.tick();
    assert_eq!(gb.get_sp(), 0x0200);
    assert_eq!(gb.get_cycles(), 1);
}

#[test]
fn cb_shifts() {
    // SLA A; SRA A; SRL A, each from A=0x81.
    let mut gb = boot(&[0xCB, 0x27]);
    gb.set_af(0x8100);
    gb.tick();
    assert_eq!(gb.get_af() >> 8, 0x02);
    assert_eq!(gb.read_flag(C), 1);

    let mut gb2 = boot(&[0xCB, 0x2F]);
    gb2.set_af(0x8100);
    gb2.tick();
    assert_eq!(gb2.get_af() >> 8, 0xC0); // SRA keeps bit 7
    assert_eq!(gb2.read_flag(C), 1);

    let mut gb3 = boot(&[0xCB, 0x3F]);
    gb3.set_af(0x8100);
    gb3.tick();
    assert_eq!(gb3.get_af() >> 8, 0x40); // SRL zero-fills
    assert_eq!(gb3.read_flag(C), 1);
}

#[test]
fn hl_operand_cycle_costs() {
    // INC (HL); BIT 0,(HL); RES 0,(HL); LD A,(HL).
    let mut gb = boot(&[0x34, 0xCB, 0x46, 0xCB, 0x86, 0x7E]);
    gb.set_hl(0xC000);
    gb.tick();
    assert_eq!(gb.get_cycles(), 3);
    gb.tick();
    assert_eq!(gb.read_flag(Z), 0); // bit 0 of 0x01 is set
    assert_eq!(gb.get_cycles(), 3);
    gb.tick();
    assert_eq!(gb.get_cycles(), 4);
    gb.tick();
    assert_eq!(gb.get_af() >> 8, 0x00);
}

#[test]
fn reti_returns_and_sets_ime() {
    let mut gb = boot(&[0xD9]);
    gb.push_16(0x0234);
    gb.tick();
    assert_eq!(gb.get_pc(), 0x0234);
    assert!(gb.get_ime());
    assert_eq!(gb.get_cycles(), 4);
}

#[test]
fn scf_ccf_adc_sbc() {
    // SCF; ADC A,B; CCF is exercised after a second SCF; SBC A,B.
    let mut gb = boot(&[0x37, 0x88, 0x37, 0x3F, 0x98]);
    gb.set_af(0x1000);
    gb.set_bc(0x0500);
    gb.tick();
    assert_eq!(gb.read_flag(C), 1);
    gb.tick(); // ADC: 0x10 + 0x05 + 1
    assert_eq!(gb.get_af() >> 8, 0x16);
    gb.tick(); // SCF
    gb.tick(); // CCF flips it off
    assert_eq!(gb.read_flag(C), 0);
    gb.tick(); // SBC: 0x16 - 0x05 - 0
    assert_eq!(gb.get_af() >> 8, 0x11);
}

#[test]
fn f_low_nibble_zero_after_every_instruction() {
    // A mix of ALU, rotate, load and stack traffic.
    let code: [u8; 14] = [
        0x3E, 0x0F, // LD A,0x0F
        0xC6, 0x01, // ADD A,1
        0x07, // RLCA
        0xF5, // PUSH AF
        0x2F, // CPL
        0xC1, // POP BC
        0x09, // ADD HL,BC
        0x27, // DAA
        0x37, // SCF
        0x3F, // CCF
        0x05, // DEC B
        0x0C, // INC C
    ];
    let mut gb = boot(&code);
    for _ in 0..13 {
        gb.tick();
        assert_eq!(gb.get_af() & 0x0F, 0);
    }
}

#[test]
fn ld_r8_r8_and_through_hl() {
    // LD B,A; LD (HL),B; LD C,(HL).
    let mut gb = boot(&[0x47, 0x70, 0x4E]);
    gb.set_af(0x9100);
    gb.set_hl(0xC040);
    gb.tick();
    assert_eq!(gb.get_cycles(), 1);
    gb.tick();
    assert_eq!(gb.get_cycles(), 2);
    gb.tick();
    assert_eq!(gb.get_bc(), 0x9191);
}
