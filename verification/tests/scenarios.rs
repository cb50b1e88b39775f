use gb_core::bus::RESET_IO_REGS;
use gb_core::cpu::{Cpu, Flags, Regs, Regs16};

fn blank_rom(size: usize, cart_type: u8) -> Vec<u8> {
    let mut rom = vec![0u8; size];
    rom[0x147] = cart_type;
    rom
}

fn machine_with(program: &[u8]) -> Cpu {
    let mut rom = blank_rom(0x8000, 0x00);
    for i in 0..program.len() {
        rom[0x100 + i] = program[i];
    }
    let mut gb = Cpu::new();
    assert!(gb.load_game(&rom).is_ok());
    gb
}

fn flags_of(gb: &Cpu) -> (bool, bool, bool, bool) {
    (gb.get_flag(Flags::Z), gb.get_flag(Flags::N), gb.get_flag(Flags::H), gb.get_flag(Flags::C))
}

#[test]
fn reset_register_snapshot() {
    let gb = Cpu::new();
    assert_eq!(gb.get_pc(), 0x0100);
    assert_eq!(gb.get_sp(), 0xFFFE);
    assert_eq!(gb.get_reg(Regs::A), 0x01);
    assert_eq!(gb.get_reg(Regs::F), 0xB0);
    assert_eq!(gb.get_reg(Regs::B), 0x00);
    assert_eq!(gb.get_reg(Regs::C), 0x13);
    assert_eq!(gb.get_reg(Regs::D), 0x00);
    assert_eq!(gb.get_reg(Regs::E), 0xD8);
    assert_eq!(gb.get_reg(Regs::H), 0x01);
    assert_eq!(gb.get_reg(Regs::L), 0x4D);
    assert_eq!(gb.get_reg_16(Regs16::AF), 0x01B0);
    assert_eq!(gb.get_reg_16(Regs16::BC), 0x0013);
    assert_eq!(gb.get_reg_16(Regs16::DE), 0x00D8);
    assert_eq!(gb.get_reg_16(Regs16::HL), 0x014D);
    assert!(!gb.ime);
    assert!(!gb.halted);
}

#[test]
fn reset_io_registers() {
    let gb = Cpu::new();
    let expected: [(u16, u8); 29] = [
        (0xFF05, 0x00), (0xFF06, 0x00), (0xFF07, 0x00), (0xFF10, 0x80), (0xFF11, 0xBF),
        (0xFF12, 0xF3), (0xFF14, 0xBF), (0xFF16, 0x3F), (0xFF19, 0xBF), (0xFF1A, 0x7F),
        (0xFF1B, 0xFF), (0xFF1C, 0x9F), (0xFF1E, 0xBF), (0xFF20, 0xFF), (0xFF21, 0x00),
        (0xFF22, 0x00), (0xFF23, 0xBF), (0xFF24, 0x77), (0xFF25, 0xF3), (0xFF26, 0xF1),
        (0xFF40, 0x91), (0xFF42, 0x00), (0xFF43, 0x00), (0xFF45, 0x00), (0xFF47, 0xFC),
        (0xFF48, 0xFF), (0xFF49, 0xFF), (0xFF4A, 0x00), (0xFF4B, 0x00),
    ];
    for (addr, val) in expected.iter() {
        assert_eq!(gb.read_ram(*addr), *val, "register {:04X}", addr);
    }
    assert_eq!(RESET_IO_REGS[0x10], 0x80);
    assert_eq!(gb.read_ram(0xFF04), 0xAB);
    assert_eq!(gb.read_ram(0xFF0F), 0xE0);
    assert_eq!(gb.read_ram(0xFFFF), 0x00);
    assert_eq!(gb.read_ram(0xFF44), 0x00);
}

#[test]
fn push_pop_from_reset() {
    let mut gb = Cpu::new();
    gb.push(0xABCD);
    gb.push(0x1234);
    assert_eq!(gb.get_sp(), 0xFFFA);
    assert_eq!(gb.read_ram(0xFFFB), 0x12);
    assert_eq!(gb.read_ram(0xFFFC), 0x34);
    assert_eq!(gb.read_ram(0xFFFD), 0xAB);
    assert_eq!(gb.read_ram(0xFFFE), 0xCD);
    assert_eq!(gb.pop(), 0x1234);
    assert_eq!(gb.pop(), 0xABCD);
    assert_eq!(gb.get_sp(), 0xFFFE);
}

#[test]
fn pop_on_empty_stack_wraps_around() {
    let mut gb = Cpu::new();
    gb.set_sp(0xFFFF);
    gb.pop();
    assert_eq!(gb.get_sp(), 0x0001);
}

#[test]
fn add_a_with_half_carry() {
    // LD A,$0F; ADD A,$01
    let mut gb = machine_with(&[0x3E, 0x0F, 0xC6, 0x01]);
    assert_eq!(gb.step(), 2);
    assert_eq!(gb.step(), 2);
    assert_eq!(gb.get_reg(Regs::A), 0x10);
    assert_eq!(flags_of(&gb), (false, false, true, false));
    assert_eq!(gb.get_pc(), 0x0104);
}

#[test]
fn adc_chain() {
    // LD A,$FF; SCF; ADC A,$00
    let mut gb = machine_with(&[0x3E, 0xFF, 0x37, 0xCE, 0x00]);
    gb.step();
    gb.step();
    assert!(gb.get_flag(Flags::C));
    gb.step();
    assert_eq!(gb.get_reg(Regs::A), 0x00);
    assert_eq!(flags_of(&gb), (true, false, true, true));
}

#[test]
fn daa_after_add() {
    // LD A,$15; ADD A,$27; DAA
    let mut gb = machine_with(&[0x3E, 0x15, 0xC6, 0x27, 0x27]);
    gb.step();
    gb.step();
    assert_eq!(gb.get_reg(Regs::A), 0x3C);
    assert!(!gb.get_flag(Flags::H));
    assert_eq!(gb.step(), 1);
    assert_eq!(gb.get_reg(Regs::A), 0x42);
    assert_eq!(flags_of(&gb), (false, false, false, false));
}

#[test]
fn daa_after_subtraction() {
    // LD A,$42; SUB $15; DAA
    let mut gb = machine_with(&[0x3E, 0x42, 0xD6, 0x15, 0x27]);
    gb.step();
    gb.step();
    assert_eq!(gb.get_reg(Regs::A), 0x2D);
    gb.step();
    assert_eq!(gb.get_reg(Regs::A), 0x27);
    assert_eq!(flags_of(&gb), (false, true, false, false));
}

#[test]
fn daa_sets_carry_above_ninety_nine() {
    // LD A,$90; ADD A,$20; DAA
    let mut gb = machine_with(&[0x3E, 0x90, 0xC6, 0x20, 0x27]);
    gb.step();
    gb.step();
    assert_eq!(gb.get_reg(Regs::A), 0xB0);
    gb.step();
    assert_eq!(gb.get_reg(Regs::A), 0x10);
    assert_eq!(flags_of(&gb), (false, false, false, true));
}

#[test]
fn timer_overflow_reloads_from_tma() {
    let mut gb = Cpu::new();
    gb.write_ram(0xFF07, 0x05);
    gb.write_ram(0xFF06, 0xAB);
    gb.write_ram(0xFF05, 0xFF);
    gb.bus.advance(4);
    assert_eq!(gb.read_ram(0xFF05), 0xAB);
    assert_eq!(gb.read_ram(0xFF0F) & 0x04, 0x04);
}

#[test]
fn timer_overflow_step_by_step() {
    let mut gb = Cpu::new();
    gb.write_ram(0xFF07, 0x05);
    gb.write_ram(0xFF06, 0xAB);
    gb.write_ram(0xFF05, 0xFF);
    // The divider stands at $ABCC: bit 3 falls on the fourth tick.
    assert_eq!(gb.read_ram(0xFF04), 0xAB);
    gb.bus.advance(1);
    assert_eq!(gb.read_ram(0xFF05), 0x00);
    assert_eq!(gb.read_ram(0xFF0F) & 0x04, 0x00);
    // Four ticks later the counter is reloaded and the interrupt requested.
    gb.bus.advance(1);
    assert_eq!(gb.read_ram(0xFF05), 0xAB);
    assert_eq!(gb.read_ram(0xFF0F) & 0x04, 0x04);
    gb.bus.advance(2);
    assert_eq!(gb.read_ram(0xFF05), 0xAB);
    gb.bus.advance(1);
    assert_eq!(gb.read_ram(0xFF05), 0xAC);
}

#[test]
fn timer_overflow_from_a_cleared_divider() {
    let mut gb = Cpu::new();
    gb.write_ram(0xFF04, 0x00);
    gb.write_ram(0xFF07, 0x05);
    gb.write_ram(0xFF06, 0xAB);
    gb.write_ram(0xFF05, 0xFF);
    // 16 clock ticks bring the falling edge that overflows the counter.
    gb.bus.advance(4);
    assert_eq!(gb.read_ram(0xFF05), 0x00);
    assert_eq!(gb.read_ram(0xFF0F) & 0x04, 0x00);
    gb.bus.advance(1);
    assert_eq!(gb.read_ram(0xFF05), 0xAB);
    assert_eq!(gb.read_ram(0xFF0F) & 0x04, 0x04);
}

#[test]
fn mbc1_bank_aliasing() {
    let mut rom = blank_rom(0x22 * 0x4000, 0x01);
    rom[0x4000] = 0x11;
    rom[0x20 * 0x4000] = 0x20;
    rom[0x21 * 0x4000] = 0x21;
    let mut gb = Cpu::new();
    assert!(gb.load_game(&rom).is_ok());
    // The upper two bits of the bank number come from $4000-$5FFF.
    gb.write_ram(0x4000, 0x01);
    gb.write_ram(0x2000, 0x20);
    assert_eq!(gb.bus.cart.rom_bank, 0x21);
    assert_eq!(gb.read_ram(0x4000), rom[0x21 * 0x4000]);
    assert_eq!(gb.read_ram(0x4000), 0x21);
}

#[test]
fn mbc1_zero_bank_from_reset_selects_bank_one() {
    let mut rom = blank_rom(0x22 * 0x4000, 0x01);
    rom[0x4000] = 0x11;
    let mut gb = Cpu::new();
    assert!(gb.load_game(&rom).is_ok());
    gb.write_ram(0x2000, 0x20);
    assert_eq!(gb.bus.cart.rom_bank, 0x01);
    assert_eq!(gb.read_ram(0x4000), 0x11);
    gb.write_ram(0x3FFF, 0x00);
    assert_eq!(gb.bus.cart.rom_bank, 0x01);
    assert_eq!(gb.read_ram(0x4000), rom[0x4000]);
}

#[test]
fn vblank_latch_after_one_frame() {
    // A ROM of NOPs: every tick takes one machine cycle, four clock ticks.
    let mut gb = machine_with(&[]);
    let mut frames = 0;
    let mut lines_seen = [false; 154];
    let mut last_line = 0u8;
    let mut line_changes = 0;
    for _ in 0..(70224 / 4) {
        if gb.tick() {
            frames += 1;
            assert_eq!(gb.read_ram(0xFF44), 144);
        }
        let line = gb.read_ram(0xFF44);
        lines_seen[line as usize] = true;
        if line != last_line {
            assert_eq!(line, if last_line == 153 { 0 } else { last_line + 1 });
            line_changes += 1;
            last_line = line;
        }
    }
    assert_eq!(frames, 1);
    assert_eq!(line_changes, 154);
    assert!(lines_seen.iter().all(|seen| *seen));
    assert_eq!(gb.read_ram(0xFF44), 0);
    assert_eq!(gb.bus.ppu.clock.cycles, 0);
    // The vertical-blanking interrupt was requested.
    assert_eq!(gb.read_ram(0xFF0F) & 0x01, 0x01);
}

#[test]
fn step_frame_runs_to_the_vblank_latch() {
    let mut gb = machine_with(&[0x18, 0xFE]);
    assert!(gb.step_frame());
    assert_eq!(gb.read_ram(0xFF44), 144);
    assert_eq!(gb.get_pc(), 0x0100);
    assert_eq!(gb.framebuffer().len(), 160 * 144);
    assert!(gb.framebuffer().iter().all(|shade| *shade < 4));
    // The next frame takes a whole period.
    assert!(gb.step_frame());
    assert_eq!(gb.read_ram(0xFF44), 144);
}

#[test]
fn step_frame_gives_up_when_the_line_counter_is_held_back() {
    // loop: LD ($FF44),A; JR loop
    let mut gb = machine_with(&[0xE0, 0x44, 0x18, 0xFC]);
    assert!(!gb.step_frame());
    assert!(gb.read_ram(0xFF44) < 144);
}
