use gb_core::menu::{DisplayOptions, MenuState, Shaders};
use gb_core::ppu::palette::Palettes;
use gb_core::utils::{
    check_h_borrow_u8, check_h_carry_u16, check_h_carry_u8, clear_bit, get_bit, merge_bytes, set_bit, tile_pixel,
    trim_newline, unpack_u8, write_bit, ModifyBytes, Point, COLOR_CHANNELS, DISP_SIZE, FRAME_SIZE, SCREEN_HEIGHT,
    SCREEN_WIDTH, TILESIZE,
};

#[test]
fn screen_constants() {
    assert_eq!(SCREEN_WIDTH, 160);
    assert_eq!(SCREEN_HEIGHT, 144);
    assert_eq!(TILESIZE, 8);
    assert_eq!(FRAME_SIZE, SCREEN_WIDTH * SCREEN_HEIGHT);
    assert_eq!(DISP_SIZE, FRAME_SIZE * COLOR_CHANNELS);
    let p = Point::new(3, 4);
    assert_eq!((p.x, p.y), (3, 4));
}

#[test]
fn bits() {
    for byte in 0..=255u8 {
        for n in 0..8u8 {
            let mask = 1u8 << n;
            assert_eq!(get_bit(byte, n), byte & mask != 0);
            assert_eq!(set_bit(byte, n), byte | mask);
            assert_eq!(clear_bit(byte, n), byte & !mask);
            assert_eq!(write_bit(byte, n, true), byte | mask);
            assert_eq!(write_bit(byte, n, false), byte & !mask);
            for m in 0..8u8 {
                let expected = if m == n { true } else { get_bit(byte, m) };
                assert_eq!(get_bit(set_bit(byte, n), m), expected);
            }
        }
    }
}

#[test]
fn merge_and_split() {
    assert_eq!(merge_bytes(0xAB, 0xCD), 0xABCD);
    assert_eq!(merge_bytes(0x00, 0xFF), 0x00FF);
    assert_eq!(merge_bytes(0xFF, 0x00), 0xFF00);
    assert_eq!(0xABCDu16.get_high_byte(), 0xAB);
    assert_eq!(0xABCDu16.get_low_byte(), 0xCD);
    for word in [0u16, 1, 0x00FF, 0x0100, 0x1234, 0xFFFF] {
        assert_eq!(merge_bytes(word.get_high_byte(), word.get_low_byte()), word);
    }
}

#[test]
fn half_carries() {
    assert!(!check_h_carry_u8(0x0E, 0x01));
    assert!(check_h_carry_u8(0x0F, 0x01));
    assert!(check_h_carry_u8(0xFF, 0xFF));
    assert!(!check_h_carry_u8(0xF0, 0xF0));
    assert!(!check_h_carry_u16(0x0FFE, 0x0001));
    assert!(check_h_carry_u16(0x0FFF, 0x0001));
    assert!(!check_h_carry_u16(0xF000, 0xF000));
    assert!(check_h_borrow_u8(0x10, 0x01));
    assert!(!check_h_borrow_u8(0x11, 0x01));
    assert!(!check_h_borrow_u8(0x0F, 0xFF));
    assert!(check_h_borrow_u8(0xFE, 0x0F));
}

#[test]
fn palette_fields() {
    assert_eq!(unpack_u8(0xE4), [0, 1, 2, 3]);
    assert_eq!(unpack_u8(0x1B), [3, 2, 1, 0]);
    assert_eq!(unpack_u8(0xFC), [0, 3, 3, 3]);
    assert_eq!(unpack_u8(0x00), [0, 0, 0, 0]);
}

#[test]
fn tile_pixels() {
    assert_eq!(tile_pixel(0x80, 0x00, 7), 1);
    assert_eq!(tile_pixel(0x00, 0x80, 7), 2);
    assert_eq!(tile_pixel(0x80, 0x80, 7), 3);
    assert_eq!(tile_pixel(0x80, 0x80, 6), 0);
    assert_eq!(tile_pixel(0x01, 0x03, 0), 3);
    assert_eq!(tile_pixel(0x01, 0x03, 1), 2);
}

#[test]
fn line_ends_are_trimmed() {
    let cases = [
        ("help\n", "help"),
        ("help\r\n", "help"),
        ("help", "help"),
        ("help\r", "help\r"),
        ("b 0100\n\n", "b 0100\n"),
        ("\n", ""),
        ("\r\n", ""),
        ("", ""),
        ("a\n\r", "a\n\r"),
        ("zwei\u{00FC}\r\n", "zwei\u{00FC}"),
    ];
    for (line, expected) in cases.iter() {
        let mut s = String::from(*line);
        trim_newline(&mut s);
        assert_eq!(s, *expected);
    }
}

#[test]
fn menu_starts_empty() {
    let mut menu = MenuState::new();
    assert!(!menu.show_rom_dialog);
    assert!(menu.filename.is_none());
    assert!(!menu.is_load_time());
    let options = menu.handle_display_dialog();
    assert!(options == DisplayOptions::new(Palettes::GRAYSCALE, Shaders::NoShader));
}

#[test]
fn menu_reports_a_load_once() {
    let mut menu = MenuState::new();
    menu.set_rom_filename(String::from("games/tetris.gb"));
    assert_eq!(menu.get_rom_filename(), "games/tetris.gb");
    assert!(menu.is_load_time());
    assert!(!menu.is_load_time());
    assert_eq!(menu.get_rom_filename(), "games/tetris.gb");
}

#[test]
fn menu_file_dialog() {
    let mut menu = MenuState::new();
    // The dialog is closed: a choice is ignored.
    menu.handle_file_dialog(Some(String::from("a.gb")));
    assert!(menu.filename.is_none());
    assert!(!menu.is_load_time());
    menu.show_rom_dialog = true;
    menu.handle_file_dialog(None);
    assert!(menu.show_rom_dialog);
    assert!(menu.filename.is_none());
    menu.handle_file_dialog(Some(String::from("b.gb")));
    assert!(!menu.show_rom_dialog);
    assert_eq!(menu.get_rom_filename(), "b.gb");
    assert!(menu.is_load_time());
}

#[test]
fn menu_display_selections() {
    let mut menu = MenuState::new();
    let shaders = [Shaders::NoShader, Shaders::Greenscale, Shaders::CRT, Shaders::AsciiMono, Shaders::AsciiColor];
    for (i, shader) in shaders.iter().enumerate() {
        menu.create_menu(0, i);
        let options = menu.handle_display_dialog();
        assert!(options.shader == *shader);
        assert!(options.palette == Palettes::GRAYSCALE);
    }
    // Places that the menu does not have are ignored.
    menu.create_menu(1, 5);
    assert_eq!(menu.pal_index, 0);
    assert_eq!(menu.shader_index, 4);
    menu.create_menu(0, 2);
    assert_eq!(menu.shader_index, 2);
}
