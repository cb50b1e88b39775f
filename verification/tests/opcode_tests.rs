use gb_core::cpu::opcodes::OP_CYCLES;
use gb_core::cpu::{Cpu, Flags, Regs, Regs16};

fn machine_with(program: &[u8]) -> Cpu {
    let mut rom = vec![0u8; 0x8000];
    for i in 0..program.len() {
        rom[0x100 + i] = program[i];
    }
    let mut gb = Cpu::new();
    assert!(gb.load_game(&rom).is_ok());
    gb
}

fn flags_of(gb: &Cpu) -> (bool, bool, bool, bool) {
    (gb.get_flag(Flags::Z), gb.get_flag(Flags::N), gb.get_flag(Flags::H), gb.get_flag(Flags::C))
}

#[test]
fn nop_takes_one_cycle() {
    let mut gb = machine_with(&[0x00]);
    assert_eq!(gb.step(), 1);
    assert_eq!(gb.get_pc(), 0x0101);
    assert_eq!(gb.get_reg_16(Regs16::AF), 0x01B0);
}

#[test]
fn load_immediates_into_every_register() {
    // LD B,1; LD C,2; LD D,3; LD E,4; LD H,5; LD L,6; LD A,8
    let mut gb = machine_with(&[0x06, 1, 0x0E, 2, 0x16, 3, 0x1E, 4, 0x26, 5, 0x2E, 6, 0x3E, 8]);
    for _ in 0..7 {
        assert_eq!(gb.step(), 2);
    }
    assert_eq!((gb.b, gb.c, gb.d, gb.e, gb.h, gb.l, gb.a), (1, 2, 3, 4, 5, 6, 8));
    assert_eq!(gb.get_pc(), 0x010E);
}

#[test]
fn load_pairs_and_register_to_register() {
    // LD BC,$1234; LD DE,$5678; LD HL,$C000; LD SP,$D000; LD A,B; LD (HL),A; LD E,(HL)
    let mut gb = machine_with(&[0x01, 0x34, 0x12, 0x11, 0x78, 0x56, 0x21, 0x00, 0xC0, 0x31, 0x00, 0xD0, 0x78, 0x77, 0x5E]);
    for _ in 0..4 {
        assert_eq!(gb.step(), 3);
    }
    assert_eq!(gb.get_reg_16(Regs16::BC), 0x1234);
    assert_eq!(gb.get_reg_16(Regs16::DE), 0x5678);
    assert_eq!(gb.get_reg_16(Regs16::HL), 0xC000);
    assert_eq!(gb.get_sp(), 0xD000);
    assert_eq!(gb.step(), 1);
    assert_eq!(gb.a, 0x12);
    assert_eq!(gb.step(), 2);
    assert_eq!(gb.read_ram(0xC000), 0x12);
    assert_eq!(gb.step(), 2);
    assert_eq!(gb.e, 0x12);
}

#[test]
fn memory_operand_of_hl() {
    // LD HL,$C000; LD (HL),$0F; INC (HL); DEC (HL); ADD A,(HL)
    let mut gb = machine_with(&[0x21, 0x00, 0xC0, 0x36, 0x0F, 0x34, 0x35, 0x86]);
    gb.step();
    assert_eq!(gb.step(), 3);
    assert_eq!(gb.read_ram(0xC000), 0x0F);
    assert_eq!(gb.step(), 3);
    assert_eq!(gb.read_ram(0xC000), 0x10);
    assert_eq!(flags_of(&gb), (false, false, true, true));
    assert_eq!(gb.step(), 3);
    assert_eq!(gb.read_ram(0xC000), 0x0F);
    assert_eq!(flags_of(&gb), (false, true, true, true));
    assert_eq!(gb.step(), 2);
    assert_eq!(gb.a, 0x10);
    assert_eq!(flags_of(&gb), (false, false, true, false));
}

#[test]
fn loads_through_hl_move_it() {
    // LD HL,$C000; LD A,$77; LD (HL+),A; LD (HL-),A; LD A,(HL+); LD A,(HL-)
    let mut gb = machine_with(&[0x21, 0x00, 0xC0, 0x3E, 0x77, 0x22, 0x32, 0x2A, 0x3A]);
    gb.step();
    gb.step();
    assert_eq!(gb.step(), 2);
    assert_eq!(gb.read_ram(0xC000), 0x77);
    assert_eq!(gb.get_reg_16(Regs16::HL), 0xC001);
    assert_eq!(gb.step(), 2);
    assert_eq!(gb.read_ram(0xC001), 0x77);
    assert_eq!(gb.get_reg_16(Regs16::HL), 0xC000);
    gb.write_ram(0xC000, 0x11);
    gb.write_ram(0xC001, 0x22);
    gb.step();
    assert_eq!(gb.a, 0x11);
    assert_eq!(gb.get_reg_16(Regs16::HL), 0xC001);
    gb.step();
    assert_eq!(gb.a, 0x22);
    assert_eq!(gb.get_reg_16(Regs16::HL), 0xC000);
}

#[test]
fn loads_through_bc_and_de() {
    // LD BC,$C010; LD DE,$C020; LD A,$5A; LD (BC),A; LD (DE),A; LD A,$00; LD A,(BC); LD A,(DE)
    let mut gb = machine_with(&[0x01, 0x10, 0xC0, 0x11, 0x20, 0xC0, 0x3E, 0x5A, 0x02, 0x12, 0x3E, 0x00, 0x0A, 0x1A]);
    for _ in 0..5 {
        gb.step();
    }
    assert_eq!(gb.read_ram(0xC010), 0x5A);
    assert_eq!(gb.read_ram(0xC020), 0x5A);
    gb.write_ram(0xC020, 0xA5);
    gb.step();
    assert_eq!(gb.step(), 2);
    assert_eq!(gb.a, 0x5A);
    assert_eq!(gb.step(), 2);
    assert_eq!(gb.a, 0xA5);
}

#[test]
fn high_page_loads() {
    // LD A,$42; LDH ($80),A; LD C,$81; LD ($FF00+C),A; LD A,$00; LDH A,($80); LD A,$00; LD A,($FF00+C)
    let mut gb = machine_with(&[0x3E, 0x42, 0xE0, 0x80, 0x0E, 0x81, 0xE2, 0x3E, 0x00, 0xF0, 0x80, 0x3E, 0x00, 0xF2]);
    gb.step();
    assert_eq!(gb.step(), 3);
    assert_eq!(gb.read_ram(0xFF80), 0x42);
    gb.step();
    assert_eq!(gb.step(), 2);
    assert_eq!(gb.read_ram(0xFF81), 0x42);
    gb.step();
    assert_eq!(gb.step(), 3);
    assert_eq!(gb.a, 0x42);
    gb.step();
    assert_eq!(gb.step(), 2);
    assert_eq!(gb.a, 0x42);
}

#[test]
fn absolute_loads() {
    // LD A,$99; LD ($C123),A; LD A,$00; LD A,($C123); LD ($C200),SP
    let mut gb = machine_with(&[0x3E, 0x99, 0xEA, 0x23, 0xC1, 0x3E, 0x00, 0xFA, 0x23, 0xC1, 0x08, 0x00, 0xC2]);
    gb.step();
    assert_eq!(gb.step(), 4);
    assert_eq!(gb.read_ram(0xC123), 0x99);
    gb.step();
    assert_eq!(gb.step(), 4);
    assert_eq!(gb.a, 0x99);
    assert_eq!(gb.step(), 5);
    assert_eq!(gb.read_ram(0xC200), 0xFE);
    assert_eq!(gb.read_ram(0xC201), 0xFF);
    assert_eq!(gb.get_pc(), 0x010D);
}

#[test]
fn relative_jumps() {
    // JR +2 over two bytes, then JR -2 onto itself
    let mut gb = machine_with(&[0x18, 0x02, 0x00, 0x00, 0x18, 0xFE]);
    assert_eq!(gb.step(), 3);
    assert_eq!(gb.get_pc(), 0x0104);
    assert_eq!(gb.step(), 3);
    assert_eq!(gb.get_pc(), 0x0104);
}

#[test]
fn conditional_relative_jumps() {
    // At reset Z and C are set. JR NZ,+5; JR NC,+5; JR Z,+1; (skipped); JR C,-2
    let mut gb = machine_with(&[0x20, 0x05, 0x30, 0x05, 0x28, 0x01, 0x00, 0x38, 0xFE]);
    assert_eq!(gb.step(), 2);
    assert_eq!(gb.get_pc(), 0x0102);
    assert_eq!(gb.step(), 2);
    assert_eq!(gb.get_pc(), 0x0104);
    assert_eq!(gb.step(), 3);
    assert_eq!(gb.get_pc(), 0x0107);
    assert_eq!(gb.step(), 3);
    assert_eq!(gb.get_pc(), 0x0107);
}

#[test]
fn absolute_jumps() {
    // JP NZ,$0200 (not taken); JP Z,$0110 ... at $0110: JP $0120; at $0120: LD HL,$0130; JP HL
    let mut program = vec![0u8; 0x30];
    program[0..6].copy_from_slice(&[0xC2, 0x00, 0x02, 0xCA, 0x10, 0x01]);
    program[0x10..0x13].copy_from_slice(&[0xC3, 0x20, 0x01]);
    program[0x20..0x24].copy_from_slice(&[0x21, 0x30, 0x01, 0xE9]);
    let mut gb = machine_with(&program);
    assert_eq!(gb.step(), 3);
    assert_eq!(gb.get_pc(), 0x0103);
    assert_eq!(gb.step(), 4);
    assert_eq!(gb.get_pc(), 0x0110);
    assert_eq!(gb.step(), 4);
    assert_eq!(gb.get_pc(), 0x0120);
    gb.step();
    assert_eq!(gb.step(), 1);
    assert_eq!(gb.get_pc(), 0x0130);
}

#[test]
fn call_and_return() {
    // CALL $0110 ... at $0110: RET
    let mut program = vec![0u8; 0x20];
    program[0..3].copy_from_slice(&[0xCD, 0x10, 0x01]);
    program[0x10] = 0xC9;
    let mut gb = machine_with(&program);
    assert_eq!(gb.step(), 6);
    assert_eq!(gb.get_pc(), 0x0110);
    assert_eq!(gb.get_sp(), 0xFFFC);
    assert_eq!(gb.read_ram(0xFFFD), 0x01);
    assert_eq!(gb.read_ram(0xFFFE), 0x03);
    assert_eq!(gb.step(), 4);
    assert_eq!(gb.get_pc(), 0x0103);
    assert_eq!(gb.get_sp(), 0xFFFE);
}

#[test]
fn conditional_call_and_return() {
    // CALL NZ,$0110 (not taken); CALL C,$0110 ... at $0110: RET NC (not taken); RET Z
    let mut program = vec![0u8; 0x20];
    program[0..6].copy_from_slice(&[0xC4, 0x10, 0x01, 0xDC, 0x10, 0x01]);
    program[0x10..0x12].copy_from_slice(&[0xD0, 0xC8]);
    let mut gb = machine_with(&program);
    assert_eq!(gb.step(), 3);
    assert_eq!(gb.get_pc(), 0x0103);
    assert_eq!(gb.get_sp(), 0xFFFE);
    assert_eq!(gb.step(), 6);
    assert_eq!(gb.get_pc(), 0x0110);
    assert_eq!(gb.step(), 2);
    assert_eq!(gb.get_pc(), 0x0111);
    assert_eq!(gb.step(), 5);
    assert_eq!(gb.get_pc(), 0x0106);
}

#[test]
fn restart_vectors() {
    for y in 0..8u8 {
        let mut gb = machine_with(&[0xC7 + 8 * y]);
        assert_eq!(gb.step(), 4);
        assert_eq!(gb.get_pc(), 8 * y as u16);
        assert_eq!(gb.get_sp(), 0xFFFC);
        assert_eq!(gb.pop(), 0x0101);
    }
}

#[test]
fn push_and_pop_pairs() {
    // LD BC,$12FF; PUSH BC; POP AF; PUSH AF; POP DE; POP HL after PUSH DE
    let mut gb = machine_with(&[0x01, 0xFF, 0x12, 0xC5, 0xF1, 0xF5, 0xD1, 0xD5, 0xE1]);
    gb.step();
    assert_eq!(gb.step(), 4);
    assert_eq!(gb.get_sp(), 0xFFFC);
    assert_eq!(gb.step(), 3);
    assert_eq!(gb.get_reg_16(Regs16::AF), 0x12F0);
    assert_eq!(gb.get_sp(), 0xFFFE);
    gb.step();
    gb.step();
    assert_eq!(gb.get_reg_16(Regs16::DE), 0x12F0);
    gb.step();
    gb.step();
    assert_eq!(gb.get_reg_16(Regs16::HL), 0x12F0);
}

#[test]
fn sixteen_bit_arithmetic() {
    // LD HL,$0FFF; LD BC,$0001; ADD HL,BC; INC BC; DEC BC; DEC BC; DEC BC; INC SP; ADD HL,HL
    let mut gb = machine_with(&[0x21, 0xFF, 0x0F, 0x01, 0x01, 0x00, 0x09, 0x03, 0x0B, 0x0B, 0x0B, 0x33, 0x29]);
    gb.step();
    gb.step();
    assert_eq!(gb.step(), 2);
    assert_eq!(gb.get_reg_16(Regs16::HL), 0x1000);
    // Z is kept, N cleared, H set from bit 11, C clear.
    assert_eq!(flags_of(&gb), (true, false, true, false));
    assert_eq!(gb.step(), 2);
    assert_eq!(gb.get_reg_16(Regs16::BC), 0x0002);
    gb.step();
    gb.step();
    assert_eq!(gb.step(), 2);
    assert_eq!(gb.get_reg_16(Regs16::BC), 0xFFFF);
    assert_eq!(flags_of(&gb), (true, false, true, false));
    gb.step();
    assert_eq!(gb.get_sp(), 0xFFFF);
    gb.step();
    assert_eq!(gb.get_reg_16(Regs16::HL), 0x2000);
    assert_eq!(flags_of(&gb), (true, false, false, false));
}

#[test]
fn stack_pointer_offsets() {
    // ADD SP,$02; LD HL,SP-1; LD SP,HL
    let mut gb = machine_with(&[0xE8, 0x02, 0xF8, 0xFF, 0xF9]);
    assert_eq!(gb.step(), 4);
    assert_eq!(gb.get_sp(), 0x0000);
    assert_eq!(flags_of(&gb), (false, false, true, true));
    assert_eq!(gb.step(), 3);
    assert_eq!(gb.get_reg_16(Regs16::HL), 0xFFFF);
    assert_eq!(flags_of(&gb), (false, false, false, false));
    assert_eq!(gb.step(), 2);
    assert_eq!(gb.get_sp(), 0xFFFF);

    let mut gb = machine_with(&[0xF8, 0xFF, 0xE8, 0x80]);
    gb.step();
    assert_eq!(gb.get_reg_16(Regs16::HL), 0xFFFD);
    assert_eq!(flags_of(&gb), (false, false, true, true));
    gb.step();
    assert_eq!(gb.get_sp(), 0xFF7E);
    assert_eq!(flags_of(&gb), (false, false, false, true));
}

#[test]
fn accumulator_operations_on_registers() {
    // LD A,$3C; LD B,$0F; AND B; OR B; XOR A; LD A,$10; SUB B; CP B; SBC A,B; ADC A,B
    let mut gb = machine_with(&[0x3E, 0x3C, 0x06, 0x0F, 0xA0, 0xB0, 0xAF, 0x3E, 0x10, 0x90, 0xB8, 0x98, 0x88]);
    gb.step();
    gb.step();
    assert_eq!(gb.step(), 1);
    assert_eq!(gb.a, 0x0C);
    assert_eq!(flags_of(&gb), (false, false, true, false));
    gb.step();
    assert_eq!(gb.a, 0x0F);
    assert_eq!(flags_of(&gb), (false, false, false, false));
    gb.step();
    assert_eq!(gb.a, 0x00);
    assert_eq!(flags_of(&gb), (true, false, false, false));
    gb.step();
    gb.step();
    assert_eq!(gb.a, 0x01);
    assert_eq!(flags_of(&gb), (false, true, true, false));
    gb.step();
    assert_eq!(gb.a, 0x01);
    assert_eq!(flags_of(&gb), (false, true, true, true));
    gb.step();
    assert_eq!(gb.a, 0xF1);
    assert_eq!(flags_of(&gb), (false, true, true, true));
    gb.step();
    assert_eq!(gb.a, 0x01);
    assert_eq!(flags_of(&gb), (false, false, true, true));
}

#[test]
fn rotations_of_a_clear_z() {
    // XOR A; RLCA; RRCA; RLA; RRA
    let mut gb = machine_with(&[0xAF, 0x07, 0x0F, 0x17, 0x1F]);
    gb.step();
    assert!(gb.get_flag(Flags::Z));
    for _ in 0..4 {
        assert_eq!(gb.step(), 1);
        assert_eq!(gb.a, 0);
        assert_eq!(flags_of(&gb), (false, false, false, false));
    }
    // LD A,$81; RLCA; RLA; RRCA; RRA
    let mut gb = machine_with(&[0x3E, 0x81, 0x07, 0x17, 0x0F, 0x1F]);
    gb.step();
    gb.step();
    assert_eq!(gb.a, 0x03);
    assert!(gb.get_flag(Flags::C));
    gb.step();
    assert_eq!(gb.a, 0x07);
    assert!(!gb.get_flag(Flags::C));
    gb.step();
    assert_eq!(gb.a, 0x83);
    assert!(gb.get_flag(Flags::C));
    gb.step();
    assert_eq!(gb.a, 0xC1);
    assert!(gb.get_flag(Flags::C));
}

#[test]
fn prefixed_rotations_and_shifts() {
    // LD A,$00; RLC A sets Z, unlike RLCA.
    let mut gb = machine_with(&[0x3E, 0x00, 0xCB, 0x07]);
    gb.step();
    assert_eq!(gb.step(), 2);
    assert_eq!(flags_of(&gb), (true, false, false, false));

    // LD B,$85; then RLC B, RRC B, RL B, RR B, SLA B, SRA B, SWAP B, SRL B
    let mut gb = machine_with(&[
        0x06, 0x85, 0xCB, 0x00, 0xCB, 0x08, 0xCB, 0x10, 0xCB, 0x18, 0xCB, 0x20, 0xCB, 0x28, 0xCB, 0x30, 0xCB, 0x38,
    ]);
    gb.step();
    gb.f = 0;
    let expected: [(u8, bool); 8] = [
        (0x0B, true),
        (0x85, true),
        (0x0B, true),
        (0x85, true),
        (0x0A, true),
        (0x05, false),
        (0x50, false),
        (0x28, false),
    ];
    for (value, carry) in expected.iter() {
        assert_eq!(gb.step(), 2);
        assert_eq!(gb.b, *value);
        assert_eq!(flags_of(&gb), (false, false, false, *carry));
    }
    // SRA keeps the top bit.
    let mut gb = machine_with(&[0x06, 0x81, 0xCB, 0x28]);
    gb.step();
    gb.step();
    assert_eq!(gb.b, 0xC0);
    assert!(gb.get_flag(Flags::C));
}

#[test]
fn bit_set_and_reset() {
    // LD HL,$C000; LD (HL),$00; SET 3,(HL); BIT 3,(HL); BIT 2,(HL); RES 3,(HL); SET 7,A; BIT 7,A; RES 0,A
    let mut gb = machine_with(&[
        0x21, 0x00, 0xC0, 0x36, 0x00, 0xCB, 0xDE, 0xCB, 0x5E, 0xCB, 0x56, 0xCB, 0x9E, 0xCB, 0xFF, 0xCB, 0x7F, 0xCB,
        0x87,
    ]);
    gb.step();
    gb.step();
    assert_eq!(gb.step(), 4);
    assert_eq!(gb.read_ram(0xC000), 0x08);
    assert_eq!(gb.step(), 3);
    assert_eq!(flags_of(&gb), (false, false, true, true));
    assert_eq!(gb.step(), 3);
    assert_eq!(flags_of(&gb), (true, false, true, true));
    assert_eq!(gb.step(), 4);
    assert_eq!(gb.read_ram(0xC000), 0x00);
    assert_eq!(gb.step(), 2);
    assert_eq!(gb.a, 0x81);
    assert_eq!(gb.step(), 2);
    assert!(!gb.get_flag(Flags::Z));
    assert_eq!(gb.step(), 2);
    assert_eq!(gb.a, 0x80);
}

#[test]
fn complement_and_carry_flag_opcodes() {
    // LD A,$35; CPL; SCF; CCF; CCF
    let mut gb = machine_with(&[0x3E, 0x35, 0x2F, 0x37, 0x3F, 0x3F]);
    gb.f = 0;
    gb.step();
    assert_eq!(gb.step(), 1);
    assert_eq!(gb.a, 0xCA);
    assert_eq!(flags_of(&gb), (false, true, true, false));
    gb.step();
    assert_eq!(flags_of(&gb), (false, false, false, true));
    gb.step();
    assert_eq!(flags_of(&gb), (false, false, false, false));
    gb.step();
    assert_eq!(flags_of(&gb), (false, false, false, true));
}

#[test]
fn increments_and_decrements_of_registers() {
    // LD B,$FF; INC B; DEC B; LD C,$10; DEC C
    let mut gb = machine_with(&[0x06, 0xFF, 0x04, 0x05, 0x0E, 0x10, 0x0D]);
    gb.f = 0;
    gb.step();
    assert_eq!(gb.step(), 1);
    assert_eq!(gb.b, 0x00);
    assert_eq!(flags_of(&gb), (true, false, true, false));
    gb.step();
    assert_eq!(gb.b, 0xFF);
    assert_eq!(flags_of(&gb), (false, true, true, false));
    gb.step();
    gb.step();
    assert_eq!(gb.c, 0x0F);
    assert_eq!(flags_of(&gb), (false, true, true, false));
}

#[test]
fn undefined_opcodes_freeze() {
    for op in [0xD3u8, 0xDB, 0xDD, 0xE3, 0xE4, 0xEB, 0xEC, 0xED, 0xF4, 0xFC, 0xFD] {
        let mut gb = machine_with(&[op, 0x3C]);
        for _ in 0..3 {
            assert_eq!(gb.step(), 1);
            assert_eq!(gb.get_pc(), 0x0100);
            assert_eq!(gb.get_reg_16(Regs16::AF), 0x01B0);
            assert_eq!(gb.get_sp(), 0xFFFE);
        }
    }
}

#[test]
fn stop_skips_its_second_byte() {
    let mut gb = machine_with(&[0x10, 0x00, 0x3C]);
    assert_eq!(gb.step(), 1);
    assert_eq!(gb.get_pc(), 0x0102);
    gb.step();
    assert_eq!(gb.a, 0x02);
}

#[test]
fn cycle_table_matches_the_published_counts() {
    assert_eq!(OP_CYCLES[0x00], 1);
    assert_eq!(OP_CYCLES[0x01], 3);
    assert_eq!(OP_CYCLES[0x08], 5);
    assert_eq!(OP_CYCLES[0x34], 3);
    assert_eq!(OP_CYCLES[0x36], 3);
    assert_eq!(OP_CYCLES[0x46], 2);
    assert_eq!(OP_CYCLES[0x70], 2);
    assert_eq!(OP_CYCLES[0x76], 1);
    assert_eq!(OP_CYCLES[0x86], 2);
    assert_eq!(OP_CYCLES[0xC1], 3);
    assert_eq!(OP_CYCLES[0xC5], 4);
    assert_eq!(OP_CYCLES[0xC9], 4);
    assert_eq!(OP_CYCLES[0xCD], 6);
    assert_eq!(OP_CYCLES[0xD9], 4);
    assert_eq!(OP_CYCLES[0xE0], 3);
    assert_eq!(OP_CYCLES[0xE8], 4);
    assert_eq!(OP_CYCLES[0xE9], 1);
    assert_eq!(OP_CYCLES[0xEA], 4);
    assert_eq!(OP_CYCLES[0xF8], 3);
    assert_eq!(OP_CYCLES[0xF9], 2);
    for op in 0x40..0xC0usize {
        let uses_memory = op != 0x76 && (op % 8 == 6 || (op < 0x80 && (op / 8) % 8 == 6));
        assert_eq!(OP_CYCLES[op], if uses_memory { 2 } else { 1 });
    }
    assert!(OP_CYCLES.iter().all(|m| 1 <= *m && *m <= 6));
}

#[test]
fn every_load_between_registers_copies_the_source() {
    for op in 0x40..0x80u8 {
        if op == 0x76 {
            continue;
        }
        let mut gb = machine_with(&[op]);
        gb.b = 0x10;
        gb.c = 0x11;
        gb.d = 0x12;
        gb.e = 0x13;
        gb.h = 0xC0;
        gb.l = 0x14;
        gb.a = 0x17;
        gb.write_ram(0xC014, 0x16);
        let source = gb.read_r8(op % 8);
        gb.step();
        // Read the target back; a write of H or L moves the byte at HL.
        let target = (op / 8) % 8;
        if target == 6 {
            assert_eq!(gb.read_ram(0xC014), source);
        } else {
            let regs = [gb.b, gb.c, gb.d, gb.e, gb.h, gb.l, 0, gb.a];
            assert_eq!(regs[target as usize], source);
        }
    }
}

#[test]
fn test_bit_and_write_bit_methods() {
    let mut gb = Cpu::new();
    gb.f = 0x10;
    gb.test_bit(0b0000_0100, 2);
    assert_eq!(flags_of(&gb), (false, false, true, true));
    gb.test_bit(0b0000_0100, 3);
    assert_eq!(flags_of(&gb), (true, false, true, true));
    gb.b = 0x0F;
    gb.test_bit_reg(Regs::B, 7);
    assert!(gb.get_flag(Flags::Z));
    gb.write_bit_n(Regs::B, 7, true);
    assert_eq!(gb.b, 0x8F);
    gb.write_bit_n(Regs::B, 0, false);
    assert_eq!(gb.b, 0x8E);
    gb.write_ram(0xC000, 0xF0);
    gb.write_bit_ram(0xC000, 0, true);
    gb.write_bit_ram(0xC000, 7, false);
    assert_eq!(gb.read_ram(0xC000), 0x71);
}

#[test]
fn rotate_and_shift_methods() {
    let mut gb = Cpu::new();
    gb.f = 0;
    assert_eq!(gb.rot_left(0x80, false), 0x01);
    assert_eq!(flags_of(&gb), (false, false, false, true));
    assert_eq!(gb.rot_left(0x80, true), 0x01);
    assert_eq!(flags_of(&gb), (false, false, false, true));
    gb.f = 0;
    assert_eq!(gb.rot_left(0x80, true), 0x00);
    assert_eq!(flags_of(&gb), (true, false, false, true));
    assert_eq!(gb.rot_right(0x01, true), 0x80);
    assert_eq!(flags_of(&gb), (false, false, false, true));
    assert_eq!(gb.rot_right(0x02, false), 0x01);
    assert_eq!(flags_of(&gb), (false, false, false, false));
    assert_eq!(gb.shift_left(0xC0), 0x80);
    assert_eq!(flags_of(&gb), (false, false, false, true));
    assert_eq!(gb.shift_right(0x81, true), 0xC0);
    assert_eq!(gb.shift_right(0x81, false), 0x40);
    assert_eq!(gb.swap_bits(0xA5), 0x5A);
    assert_eq!(flags_of(&gb), (false, false, false, false));
    assert_eq!(gb.swap_bits(0x00), 0x00);
    assert!(gb.get_flag(Flags::Z));
    gb.c = 0x12;
    gb.swap_bits_reg(Regs::C);
    assert_eq!(gb.c, 0x21);
    gb.d = 0x81;
    gb.f = 0;
    gb.rot_left_reg(Regs::D, false);
    assert_eq!(gb.d, 0x03);
    gb.rot_right_reg(Regs::D, false);
    assert_eq!(gb.d, 0x81);
    gb.shift_left_reg(Regs::D);
    assert_eq!(gb.d, 0x02);
    gb.shift_right_reg(Regs::D, false);
    assert_eq!(gb.d, 0x01);
}

#[test]
fn dec_methods() {
    let mut gb = Cpu::new();
    gb.b = 0x10;
    gb.f = 0x10;
    gb.dec_8(Regs::B);
    assert_eq!(gb.b, 0x0F);
    assert_eq!(flags_of(&gb), (false, true, true, true));
    gb.b = 0x01;
    gb.dec_8(Regs::B);
    assert_eq!(gb.b, 0x00);
    assert_eq!(flags_of(&gb), (true, true, false, true));
    gb.set_reg_16(Regs16::DE, 0x0000);
    gb.dec_16(Regs16::DE);
    assert_eq!(gb.get_reg_16(Regs16::DE), 0xFFFF);
    gb.ld_n_d8(Regs::L, 0x44);
    assert_eq!(gb.l, 0x44);
    gb.ld_nn_d16(Regs16::HL, 0xBEEF);
    assert_eq!(gb.get_reg_16(Regs16::HL), 0xBEEF);
    gb.set_pc(0x1234);
    assert_eq!(gb.get_pc(), 0x1234);
}

#[test]
fn fetch_reads_and_advances() {
    let mut gb = machine_with(&[0x12, 0x34, 0x56]);
    assert_eq!(gb.fetch(), 0x12);
    assert_eq!(gb.get_pc(), 0x0101);
    assert_eq!(gb.fetch_16(), 0x5634);
    assert_eq!(gb.get_pc(), 0x0103);
    gb.set_pc(0xFFFF);
    gb.fetch();
    assert_eq!(gb.get_pc(), 0x0000);
}
