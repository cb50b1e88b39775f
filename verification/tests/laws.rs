use gb_core::bus::Bus;
use gb_core::cartridge::Cart;
use gb_core::cpu::timer::Timer;
use gb_core::cpu::{Cpu, Flags, Regs, Regs16};
use gb_core::ppu::PPU;
use gb_core::utils::{merge_bytes, ModifyBytes};

fn blank_rom(size: usize, cart_type: u8) -> Vec<u8> {
    let mut rom = vec![0u8; size];
    rom[0x147] = cart_type;
    rom
}

fn flags_of(gb: &Cpu) -> (bool, bool, bool, bool) {
    (gb.get_flag(Flags::Z), gb.get_flag(Flags::N), gb.get_flag(Flags::H), gb.get_flag(Flags::C))
}

#[test]
fn pair_round_trip_all_pairs() {
    let mut gb = Cpu::new();
    for high in [0x00u8, 0x01, 0x7F, 0x80, 0xAB, 0xFF] {
        for low in 0..=255u8 {
            let word = merge_bytes(high, low);
            assert_eq!(word.get_high_byte(), high);
            assert_eq!(word.get_low_byte(), low);
            for pair in [Regs16::BC, Regs16::DE, Regs16::HL] {
                gb.set_reg_16(pair, word);
                assert_eq!(gb.get_reg_16(pair), word);
            }
            gb.set_reg_16(Regs16::AF, word);
            assert_eq!(gb.get_reg(Regs::A), high);
            assert_eq!(gb.get_reg(Regs::F), low & 0xF0);
            assert_eq!(gb.get_reg_16(Regs16::AF), merge_bytes(high, low & 0xF0));
        }
    }
    gb.set_reg_16(Regs16::BC, 0x1234);
    assert_eq!((gb.b, gb.c), (0x12, 0x34));
    gb.set_reg_16(Regs16::DE, 0x5678);
    assert_eq!((gb.d, gb.e), (0x56, 0x78));
    gb.set_reg_16(Regs16::HL, 0x9ABC);
    assert_eq!((gb.h, gb.l), (0x9A, 0xBC));
}

#[test]
fn set_reg_f_keeps_low_nibble_zero() {
    let mut gb = Cpu::new();
    gb.set_reg(Regs::F, 0xFF);
    assert_eq!(gb.get_reg(Regs::F), 0xF0);
    gb.set_reg(Regs::F, 0x1F);
    assert_eq!(gb.get_reg(Regs::F), 0x10);
}

#[test]
fn push_pop_round_trip() {
    let mut gb = Cpu::new();
    for sp in [0xFFFEu16, 0xFFF0, 0xDFFF, 0xC001, 0xE100] {
        for val in [0x0000u16, 0x0001, 0x00FF, 0x0100, 0x1234, 0xABCD, 0xFFFF] {
            gb.set_sp(sp);
            gb.push(val);
            assert_eq!(gb.get_sp(), sp.wrapping_sub(2));
            assert_eq!(gb.pop(), val);
            assert_eq!(gb.get_sp(), sp);
        }
    }
}

#[test]
fn push_into_rom_does_not_come_back() {
    let mut gb = Cpu::new();
    assert!(gb.load_game(&blank_rom(0x8000, 0x00)).is_ok());
    gb.set_sp(0x2000);
    gb.push(0xABCD);
    assert_eq!(gb.pop(), 0x0000);
    assert_eq!(gb.get_sp(), 0x2000);
}

#[test]
fn div_write_reads_zero() {
    let mut timer = Timer::new();
    assert_eq!(timer.read_timer(0xFF04), 0xAB);
    timer.write_timer(0xFF04, 0x12);
    assert_eq!(timer.read_timer(0xFF04), 0);
    timer.tick(200);
    assert_eq!(timer.read_timer(0xFF04), 0x03);
    for val in [0x00u8, 0x01, 0x7F, 0xFF] {
        timer.tick(77);
        timer.write_timer(0xFF04, val);
        assert_eq!(timer.read_timer(0xFF04), 0);
        assert_eq!(timer.div, 0);
    }
    let mut bus = Bus::new();
    bus.advance(255);
    assert_eq!(bus.read_ram(0xFF04), 0xAF);
    bus.write_ram(0xFF04, 0xA5);
    assert_eq!(bus.read_ram(0xFF04), 0);
    bus.advance(255);
    assert_eq!(bus.read_ram(0xFF04), 0x03);
}

#[test]
fn bank_zero_reads_rom() {
    for cart_type in [0x00u8, 0x01, 0x05, 0x0F, 0x19] {
        let mut rom = blank_rom(0x10000, cart_type);
        for i in 0..rom.len() {
            if i != 0x147 {
                rom[i] = (i * 7 + i / 256) as u8;
            }
        }
        let mut cart = Cart::new();
        assert!(cart.load_cart(&rom).is_ok());
        for addr in 0..0x4000u16 {
            assert_eq!(cart.read_cart(addr), rom[addr as usize]);
        }
        // Whatever the banking registers hold.
        cart.write_cart(0x2000, 0x03);
        cart.write_cart(0x4000, 0x02);
        cart.write_cart(0x6000, 0x01);
        for addr in 0..0x4000u16 {
            assert_eq!(cart.read_cart(addr), rom[addr as usize]);
        }
    }
}

#[test]
fn mbc1_zero_write_selects_bank_one() {
    let mut rom = blank_rom(0x10000, 0x01);
    rom[0x4000] = 0x5A;
    rom[0x8000] = 0xA5;
    for addr in [0x2000u16, 0x2ABC, 0x3FFF] {
        for val in [0x00u8, 0x20, 0x40, 0x60, 0x80, 0xE0] {
            let mut cart = Cart::new();
            assert!(cart.load_cart(&rom).is_ok());
            cart.write_cart(0x2000, 0x02);
            assert_eq!(cart.read_cart(0x4000), 0xA5);
            cart.write_cart(addr, val);
            assert_eq!(cart.rom_bank, 1);
            assert_eq!(cart.read_cart(0x4000), rom[0x4000]);
        }
    }
}

#[test]
fn alu_flags_all_pairs() {
    let mut gb = Cpu::new();
    for a in 0..=255u8 {
        for n in 0..=255u8 {
            let sum = a as u16 + n as u16;
            gb.a = a;
            gb.add_a_d8(n, false);
            assert_eq!(gb.a, sum as u8);
            assert_eq!(flags_of(&gb), (sum as u8 == 0, false, (a & 0x0F) + (n & 0x0F) > 0x0F, sum > 0xFF));

            let sub_flags = (a == n, true, (a & 0x0F) < (n & 0x0F), a < n);
            gb.a = a;
            gb.sub_a_d8(n, false);
            assert_eq!(gb.a, a.wrapping_sub(n));
            assert_eq!(flags_of(&gb), sub_flags);

            gb.a = a;
            gb.cp_a_d8(n);
            assert_eq!(gb.a, a);
            assert_eq!(flags_of(&gb), sub_flags);

            gb.a = a;
            gb.and_a_d8(n);
            assert_eq!(gb.a, a & n);
            assert_eq!(flags_of(&gb), (a & n == 0, false, true, false));

            gb.a = a;
            gb.or_a_d8(n);
            assert_eq!(gb.a, a | n);
            assert_eq!(flags_of(&gb), (a | n == 0, false, false, false));

            gb.a = a;
            gb.xor_a_d8(n);
            assert_eq!(gb.a, a ^ n);
            assert_eq!(flags_of(&gb), (a ^ n == 0, false, false, false));

            assert_eq!(gb.f & 0x0F, 0);
        }
    }
}

#[test]
fn adc_and_sbc_flags_all_pairs() {
    let mut gb = Cpu::new();
    for a in 0..=255u8 {
        for n in 0..=255u8 {
            gb.a = a;
            gb.f = 0x10;
            gb.add_a_d8(n, true);
            let sum = a as u16 + n as u16 + 1;
            assert_eq!(gb.a, sum as u8);
            assert_eq!(flags_of(&gb), (sum as u8 == 0, false, (a & 0x0F) + (n & 0x0F) + 1 > 0x0F, sum > 0xFF));

            gb.a = a;
            gb.f = 0x10;
            gb.sub_a_d8(n, true);
            let diff = a as i16 - n as i16 - 1;
            assert_eq!(gb.a, diff as u8);
            assert_eq!(
                flags_of(&gb),
                (diff as u8 == 0, true, ((a & 0x0F) as i16) < ((n & 0x0F) as i16 + 1), diff < 0)
            );
        }
    }
}

#[test]
fn background_off_row_is_blank() {
    let mut ppu = PPU::new();
    // Every tile is solid colour 3, and the palette maps every colour to 3.
    for addr in 0x8000..0x9800u16 {
        ppu.poke_vram(addr, 0xFF);
    }
    ppu.bgp = 0xFF;
    ppu.scx = 3;
    ppu.scy = 5;
    ppu.lcdc = 0x91;
    let shown = ppu.render_screen_line(0);
    assert!(shown.iter().all(|color| *color == 3));
    ppu.render_scanline();
    assert!(ppu.map_buffer[0..160].iter().all(|shade| *shade == 3));

    ppu.lcdc = 0x90;
    let hidden = ppu.render_screen_line(0);
    assert!(hidden.iter().all(|color| *color == 0));
    ppu.render_scanline();
    assert!(ppu.map_buffer[0..160].iter().all(|shade| *shade == 0));
}
