use gb_core::ppu::sprite::{Sprite, OAM_BYTE_SIZE};
use gb_core::utils::GB;

fn sprite(y: u8, x: u8, tile: u8, flags: u8) -> Sprite {
    let mut spr = Sprite::new();
    spr.set_byte(0, y, GB::DMG);
    spr.set_byte(1, x, GB::DMG);
    spr.set_byte(2, tile, GB::DMG);
    spr.set_byte(3, flags, GB::DMG);
    spr
}

#[test]
fn new_sprite() {
    let spr = Sprite::new();
    assert_eq!(spr.data, [0, 0, 0, 0]);
    assert_eq!(spr.get_coords(), (-8, -16));
    assert!(!spr.is_onscreen());
    assert_eq!(spr.get_tile_num(), 0);
    assert!(spr.is_above_bkgd());
    assert!(!spr.is_x_flip());
    assert!(!spr.is_y_flip());
    assert_eq!(spr.get_pal(), 0);
    assert_eq!(spr.get_vram_bank(), 0);
    assert_eq!(OAM_BYTE_SIZE, 4);
}

#[test]
fn bytes_are_kept_and_decoded() {
    let spr = sprite(0x50, 0x60, 0x7F, 0xF0);
    for (i, byte) in [0x50u8, 0x60, 0x7F, 0xF0].iter().enumerate() {
        assert_eq!(spr.get_byte(i as u16), *byte);
    }
    assert_eq!(spr.get_coords(), (0x60 - 8, 0x50 - 16));
    assert_eq!(spr.get_tile_num(), 0x7F);
    assert!(!spr.is_above_bkgd());
    assert!(spr.is_x_flip());
    assert!(spr.is_y_flip());
    assert_eq!(spr.get_pal(), 1);
    let spr = sprite(0, 0, 0, 0x0F);
    assert_eq!(spr.get_coords(), (-8, -16));
    assert!(spr.is_above_bkgd());
    assert!(!spr.is_x_flip());
    assert!(!spr.is_y_flip());
    assert_eq!(spr.get_pal(), 0);
    assert_eq!(spr.get_vram_bank(), 0);
    let spr = sprite(255, 255, 255, 0x20);
    assert_eq!(spr.get_coords(), (247, 239));
    assert!(spr.is_x_flip() && !spr.is_y_flip());
    let spr = sprite(0, 0, 0, 0x40);
    assert!(!spr.is_x_flip() && spr.is_y_flip());
}

#[test]
fn colour_model_attributes() {
    let mut spr = Sprite::new();
    spr.set_byte(3, 0x1D, GB::CGB);
    assert_eq!(spr.get_pal(), 5);
    assert_eq!(spr.get_vram_bank(), 1);
    spr.set_byte(3, 0x07, GB::CGB);
    assert_eq!(spr.get_pal(), 7);
    assert_eq!(spr.get_vram_bank(), 0);
    spr.set_byte(3, 0x18, GB::DMG);
    assert_eq!(spr.get_pal(), 1);
    assert_eq!(spr.get_vram_bank(), 0);
}

#[test]
fn lines_that_cross_a_sprite() {
    let spr = sprite(16 + 10, 8, 0, 0);
    assert!(!spr.contains_scanline(9, false));
    assert!(spr.contains_scanline(10, false));
    assert!(spr.contains_scanline(17, false));
    assert!(!spr.contains_scanline(18, false));
    assert!(spr.contains_scanline(18, true));
    assert!(spr.contains_scanline(25, true));
    assert!(!spr.contains_scanline(26, true));
    // Above the screen: only the lower lines are seen.
    let spr = sprite(10, 8, 0, 0);
    assert!(spr.contains_scanline(0, false));
    assert!(spr.contains_scanline(1, false));
    assert!(!spr.contains_scanline(2, false));
    assert!(spr.contains_scanline(9, true));
    let spr = sprite(0, 8, 0, 0);
    assert!(!spr.contains_scanline(0, true));
    let spr = sprite(255, 8, 0, 0);
    assert!(spr.contains_scanline(239, false));
    assert!(spr.contains_scanline(246, false));
    assert!(!spr.contains_scanline(247, false));
    assert!(spr.contains_scanline(254, true));
}

#[test]
fn on_screen() {
    assert!(sprite(16, 8, 0, 0).is_onscreen());
    assert!(sprite(0, 8, 0, 0).is_onscreen());
    assert!(sprite(16, 0, 0, 0).is_onscreen());
    assert!(!sprite(0, 0, 0, 0).is_onscreen());
    assert!(sprite(1, 0, 0, 0).is_onscreen());
    assert!(sprite(0, 1, 0, 0).is_onscreen());
    assert!(!sprite(176, 176, 0, 0).is_onscreen());
    assert!(sprite(175, 176, 0, 0).is_onscreen());
    assert!(sprite(176, 175, 0, 0).is_onscreen());
    assert!(!sprite(255, 255, 0, 0).is_onscreen());
}
