use gb_core::cpu::Cpu;
use gb_core::interrupt::{Interrupt, Interrupts};
use gb_core::io::Buttons;

fn machine_with(program: &[u8]) -> Cpu {
    let mut rom = vec![0u8; 0x8000];
    for i in 0..program.len() {
        rom[0x100 + i] = program[i];
    }
    let mut gb = Cpu::new();
    assert!(gb.load_game(&rom).is_ok());
    gb
}

#[test]
fn request_register_reads_upper_bits_set() {
    let mut ints = Interrupts::new();
    assert_eq!(ints.read_flag(), 0xE0);
    ints.write_flag(0xFF);
    assert_eq!(ints.flag, 0x1F);
    assert_eq!(ints.read_flag(), 0xFF);
    ints.write_flag(0x04);
    assert_eq!(ints.read_flag(), 0xE4);
    ints.write_enable(0xAB);
    assert_eq!(ints.enable, 0xAB);
}

#[test]
fn lowest_pending_bit_is_served_first() {
    let mut ints = Interrupts::new();
    assert_eq!(ints.first_pending(), 5);
    ints.write_enable(0x1F);
    assert_eq!(ints.first_pending(), 5);
    ints.request_if(true, Interrupt::Joypad);
    assert_eq!(ints.first_pending(), 4);
    ints.request_if(true, Interrupt::Timer);
    assert_eq!(ints.first_pending(), 2);
    ints.request_if(false, Interrupt::VBlank);
    assert_eq!(ints.first_pending(), 2);
    ints.request_if(true, Interrupt::Stat);
    ints.request_if(true, Interrupt::VBlank);
    ints.request_if(true, Interrupt::Serial);
    for expected in 0..5u8 {
        assert_eq!(ints.first_pending(), expected);
        ints.acknowledge(expected);
    }
    assert_eq!(ints.first_pending(), 5);
    assert_eq!(ints.flag, 0);
}

#[test]
fn disabled_sources_are_not_pending() {
    let mut ints = Interrupts::new();
    ints.write_flag(0x1F);
    assert_eq!(ints.first_pending(), 5);
    ints.write_enable(0x08);
    assert_eq!(ints.first_pending(), 3);
    // Bits above the five sources never count.
    ints.write_flag(0x00);
    ints.write_enable(0xE0);
    ints.flag = 0xE0;
    assert_eq!(ints.first_pending(), 5);
    assert_eq!(Interrupt::VBlank.bit_index(), 0);
    assert_eq!(Interrupt::Joypad.bit_index(), 4);
}

#[test]
fn interrupt_dispatch() {
    let mut gb = machine_with(&[0x00, 0x00]);
    gb.ime = true;
    gb.write_ram(0xFFFF, 0x05);
    gb.write_ram(0xFF0F, 0x04);
    assert_eq!(gb.step(), 5);
    assert_eq!(gb.get_pc(), 0x0050);
    assert!(!gb.ime);
    assert_eq!(gb.read_ram(0xFF0F), 0xE0);
    assert_eq!(gb.get_sp(), 0xFFFC);
    assert_eq!(gb.pop(), 0x0100);
}

#[test]
fn interrupt_vectors_by_priority() {
    let mut gb = machine_with(&[0x00]);
    gb.write_ram(0xFFFF, 0x1F);
    gb.write_ram(0xFF0F, 0x1F);
    for index in 0..5u16 {
        gb.ime = true;
        assert_eq!(gb.step(), 5);
        assert_eq!(gb.get_pc(), 0x0040 + 8 * index);
        assert_eq!(gb.read_ram(0xFF0F) & 0x1F, (0x1F << (index + 1)) as u8 & 0x1F);
    }
    gb.ime = true;
    gb.set_pc(0x0100);
    assert_eq!(gb.step(), 1);
    assert_eq!(gb.get_pc(), 0x0101);
}

#[test]
fn interrupts_wait_for_ime() {
    let mut gb = machine_with(&[0x00, 0x00]);
    gb.write_ram(0xFFFF, 0x01);
    gb.write_ram(0xFF0F, 0x01);
    assert_eq!(gb.step(), 1);
    assert_eq!(gb.get_pc(), 0x0101);
    assert_eq!(gb.read_ram(0xFF0F) & 0x01, 0x01);
}

#[test]
fn ei_takes_effect_after_the_next_instruction() {
    // EI; INC A; INC A
    let mut gb = machine_with(&[0xFB, 0x3C, 0x3C]);
    gb.write_ram(0xFFFF, 0x01);
    gb.write_ram(0xFF0F, 0x01);
    assert_eq!(gb.step(), 1);
    assert!(!gb.ime);
    // The instruction after EI still runs with interrupts off.
    assert_eq!(gb.step(), 1);
    assert_eq!(gb.a, 0x02);
    assert!(gb.ime);
    // Now the interrupt is taken, before the second INC.
    assert_eq!(gb.step(), 5);
    assert_eq!(gb.get_pc(), 0x0040);
    assert_eq!(gb.a, 0x02);
    assert_eq!(gb.pop(), 0x0102);
}

#[test]
fn di_after_ei_keeps_interrupts_off() {
    // EI; DI; NOP
    let mut gb = machine_with(&[0xFB, 0xF3, 0x00]);
    gb.write_ram(0xFFFF, 0x01);
    gb.write_ram(0xFF0F, 0x01);
    gb.step();
    assert_eq!(gb.step(), 1);
    assert!(!gb.ime);
    assert_eq!(gb.step(), 1);
    assert!(!gb.ime);
    assert_eq!(gb.get_pc(), 0x0103);
}

#[test]
fn reti_switches_interrupts_on_at_once() {
    // CALL $0110 ... at $0110: RETI
    let mut program = vec![0u8; 0x20];
    program[0..3].copy_from_slice(&[0xCD, 0x10, 0x01]);
    program[0x10] = 0xD9;
    let mut gb = machine_with(&program);
    gb.step();
    assert!(!gb.ime);
    assert_eq!(gb.step(), 4);
    assert!(gb.ime);
    assert_eq!(gb.get_pc(), 0x0103);
    assert_eq!(gb.get_sp(), 0xFFFE);
}

#[test]
fn halt_waits_for_an_interrupt() {
    // EI; HALT; INC A
    let mut gb = machine_with(&[0xFB, 0x76, 0x3C]);
    gb.write_ram(0xFFFF, 0x04);
    gb.step();
    assert_eq!(gb.step(), 1);
    assert!(gb.halted);
    assert!(gb.ime);
    for _ in 0..10 {
        assert_eq!(gb.step(), 1);
        assert_eq!(gb.get_pc(), 0x0102);
        assert!(gb.halted);
    }
    gb.write_ram(0xFF0F, 0x04);
    assert_eq!(gb.step(), 5);
    assert!(!gb.halted);
    assert_eq!(gb.get_pc(), 0x0050);
    assert_eq!(gb.pop(), 0x0102);
}

#[test]
fn halt_without_ime_resumes_without_service() {
    // HALT; INC A
    let mut gb = machine_with(&[0x76, 0x3C]);
    gb.write_ram(0xFFFF, 0x04);
    assert_eq!(gb.step(), 1);
    assert!(gb.halted);
    assert_eq!(gb.step(), 1);
    assert!(gb.halted);
    gb.write_ram(0xFF0F, 0x04);
    assert_eq!(gb.step(), 1);
    assert!(!gb.halted);
    assert_eq!(gb.a, 0x02);
    assert_eq!(gb.get_pc(), 0x0102);
    // The request stays.
    assert_eq!(gb.read_ram(0xFF0F) & 0x04, 0x04);
}

#[test]
fn halt_bug_runs_the_next_byte_twice() {
    // HALT; INC A; NOP
    let mut gb = machine_with(&[0x76, 0x3C, 0x00]);
    gb.write_ram(0xFFFF, 0x01);
    gb.write_ram(0xFF0F, 0x01);
    assert_eq!(gb.step(), 1);
    assert!(!gb.halted);
    assert!(gb.halt_bug_pending);
    gb.step();
    assert_eq!(gb.a, 0x02);
    assert_eq!(gb.get_pc(), 0x0101);
    gb.step();
    assert_eq!(gb.a, 0x03);
    assert_eq!(gb.get_pc(), 0x0102);
}

#[test]
fn timer_interrupt_reaches_the_processor() {
    // EI; then NOPs until the timer overflows.
    let mut gb = machine_with(&[0xFB]);
    gb.write_ram(0xFFFF, 0x04);
    gb.write_ram(0xFF04, 0x00);
    gb.write_ram(0xFF06, 0xF0);
    gb.write_ram(0xFF05, 0xFF);
    gb.write_ram(0xFF07, 0x05);
    let mut ticks = 0;
    while gb.get_pc() != 0x0050 {
        gb.tick();
        ticks += 1;
        assert!(ticks < 20);
    }
    // The counter was reloaded from the modulo and has counted once since.
    assert_eq!(ticks, 6);
    assert_eq!(gb.read_ram(0xFF05), 0xF1);
    assert_eq!(gb.read_ram(0xFF0F) & 0x04, 0x00);
}

#[test]
fn joypad_interrupt_on_press_of_a_selected_key() {
    let mut gb = Cpu::new();
    // Select the buttons.
    gb.write_ram(0xFF00, 0x10);
    assert_eq!(gb.read_ram(0xFF00), 0xDF);
    gb.button_event(Buttons::Left, true);
    assert_eq!(gb.read_ram(0xFF0F) & 0x10, 0x00);
    gb.button_event(Buttons::Start, true);
    assert_eq!(gb.read_ram(0xFF0F) & 0x10, 0x10);
    assert_eq!(gb.read_ram(0xFF00), 0xD7);
    // Holding a key, or letting it go, requests nothing.
    gb.write_ram(0xFF0F, 0x00);
    gb.button_event(Buttons::Start, true);
    gb.button_event(Buttons::Start, false);
    assert_eq!(gb.read_ram(0xFF0F) & 0x10, 0x00);
    // Select the directions: Left is still held.
    gb.write_ram(0xFF00, 0x20);
    assert_eq!(gb.read_ram(0xFF00), 0xED);
}
