//! One entry of the sprite table.
//!
//! | Byte | Meaning                                   |
//! |------|-------------------------------------------|
//! | 0    | Y position plus 16                        |
//! | 1    | X position plus 8                         |
//! | 2    | tile number                               |
//! | 3    | bit 7: drawn behind the background        |
//! |      | bit 6: flipped vertically                 |
//! |      | bit 5: flipped horizontally               |
//! |      | bit 4: object palette (monochrome model)  |
//! |      | bit 3: tile bank (colour model)           |
//! |      | bits 2-0: palette (colour model)          |

use vstd::prelude::*;
use vstd::array::spec_array_update;
use crate::utils::GB;

verus! {

pub const X_OFFSET: i16 = 8;

pub const Y_OFFSET: i16 = 16;

pub const X_OFFSCREEN: i16 = 168;

pub const Y_OFFSCREEN: i16 = 160;

pub const Y_POS_BYTE: u16 = 0;

pub const X_POS_BYTE: u16 = 1;

pub const TILE_NUM_BYTE: u16 = 2;

pub const FLAG_BYTE: u16 = 3;

pub const OAM_BYTE_SIZE: u16 = 4;

#[derive(Clone, Copy)]
pub struct Sprite {
    /// The four bytes as they were written.
    pub data: [u8; 4],
    pub tile_num: u8,
    /// Screen column of the left edge.
    pub x: i16,
    /// Screen line of the top edge.
    pub y: i16,
    pub above_bkgd: bool,
    pub x_flip: bool,
    pub y_flip: bool,
    pub palette: u8,
    pub vram_bank: u8,
}

impl Sprite {
    /// The sprite after byte `index` of its entry was written, decoded
    /// for the given model.
    pub open spec fn spec_set_byte(self, index: u16, byte: u8, mode: GB) -> Sprite {
        let data = spec_array_update(self.data, index as int, byte);
        if index == Y_POS_BYTE {
            Sprite { data, y: (byte - Y_OFFSET) as i16, ..self }
        } else if index == X_POS_BYTE {
            Sprite { data, x: (byte - X_OFFSET) as i16, ..self }
        } else if index == TILE_NUM_BYTE {
            Sprite { data, tile_num: byte, ..self }
        } else {
            Sprite {
                data,
                above_bkgd: byte < 128,
                y_flip: (byte / 64) % 2 == 1,
                x_flip: (byte / 32) % 2 == 1,
                palette: if mode == GB::CGB {
                    byte % 8
                } else if (byte / 16) % 2 == 1 {
                    1
                } else {
                    0
                },
                vram_bank: if mode == GB::CGB {
                    (byte / 8) % 2
                } else {
                    self.vram_bank
                },
                ..self
            }
        }
    }

    /// Whether the sprite is not wholly outside the screen in both
    /// directions.
    pub open spec fn spec_is_onscreen(self) -> bool {
        (-X_OFFSET < self.x < X_OFFSCREEN) || (-Y_OFFSET < self.y < Y_OFFSCREEN)
    }

    /// Number of lines of a sprite.
    pub open spec fn spec_height(is_8x16: bool) -> int {
        if is_8x16 {
            16
        } else {
            8
        }
    }

    /// Whether the scanline crosses the sprite.
    pub open spec fn spec_contains_scanline(self, scanline: u8, is_8x16: bool) -> bool {
        self.y <= scanline < self.y + Sprite::spec_height(is_8x16)
    }

    /// Whether the sprite has a pixel in screen column `x`.
    pub open spec fn spec_contains_column(self, x: int) -> bool {
        self.x <= x < self.x + 8
    }

    /// What the entry is before anything is written to it: its four
    /// bytes are zero, which puts it above and left of the screen.
    pub open spec fn spec_is_blank(self) -> bool {
        &&& forall|i: int| 0 <= i < 4 ==> self.data[i] == 0
        &&& self.tile_num == 0
        &&& self.x == -X_OFFSET
        &&& self.y == -Y_OFFSET
        &&& self.above_bkgd
        &&& !self.x_flip
        &&& !self.y_flip
        &&& self.palette == 0
        &&& self.vram_bank == 0
    }

    /// A sprite whose four bytes are zero.
    pub fn new() -> (sprite: Sprite)
        ensures
            sprite.spec_is_blank(),
    {
        Sprite {
            data: [0u8; 4],
            tile_num: 0,
            x: -X_OFFSET,
            y: -Y_OFFSET,
            above_bkgd: true,
            x_flip: false,
            y_flip: false,
            palette: 0,
            vram_bank: 0,
        }
    }

    /// Writes byte `index` of the entry.
    pub fn set_byte(&mut self, index: u16, byte: u8, mode: GB)
        requires
            index < OAM_BYTE_SIZE,
        ensures
            *final(self) == old(self).spec_set_byte(index, byte, mode),
    {
        if index == Y_POS_BYTE {
            self.parse_oam_byte1(byte);
        } else if index == X_POS_BYTE {
            self.parse_oam_byte2(byte);
        } else if index == TILE_NUM_BYTE {
            self.parse_oam_byte3(byte);
        } else {
            self.parse_oam_byte4(byte, mode);
        }
        self.data[index as usize] = byte;
    }

    /// Reads byte `index` of the entry as it was written.
    pub fn get_byte(&self, index: u16) -> (byte: u8)
        requires
            index < OAM_BYTE_SIZE,
        ensures
            byte == self.data[index as int],
    {
        self.data[index as usize]
    }

    pub fn is_onscreen(&self) -> (onscreen: bool)
        ensures
            onscreen == self.spec_is_onscreen(),
    {
        let x_visible = self.x > -X_OFFSET && self.x < X_OFFSCREEN;
        let y_visible = self.y > -Y_OFFSET && self.y < Y_OFFSCREEN;
        x_visible || y_visible
    }

    pub fn contains_scanline(&self, scanline: u8, is_8x16: bool) -> (inside: bool)
        ensures
            inside == self.spec_contains_scanline(scanline, is_8x16),
    {
        let line = scanline as i32;
        let spr_height: i32 = if is_8x16 { 16 } else { 8 };
        (self.y as i32 <= line) && (line < (self.y as i32 + spr_height))
    }

    pub fn get_tile_num(&self) -> (tile_num: u8)
        ensures
            tile_num == self.tile_num,
    {
        self.tile_num
    }

    pub fn get_coords(&self) -> (coords: (i16, i16))
        ensures
            coords == (self.x, self.y),
    {
        (self.x, self.y)
    }

    pub fn get_pal(&self) -> (palette: u8)
        ensures
            palette == self.palette,
    {
        self.palette
    }

    pub fn get_vram_bank(&self) -> (bank: usize)
        ensures
            bank == self.vram_bank,
    {
        self.vram_bank as usize
    }

    pub fn is_x_flip(&self) -> (flip: bool)
        ensures
            flip == self.x_flip,
    {
        self.x_flip
    }

    pub fn is_y_flip(&self) -> (flip: bool)
        ensures
            flip == self.y_flip,
    {
        self.y_flip
    }

    pub fn is_above_bkgd(&self) -> (above: bool)
        ensures
            above == self.above_bkgd,
    {
        self.above_bkgd
    }

    fn parse_oam_byte1(&mut self, val: u8)
        ensures
            *final(self) == (Sprite { y: (val - Y_OFFSET) as i16, ..*old(self) }),
    {
        self.y = (val as i16) - Y_OFFSET;
    }

    fn parse_oam_byte2(&mut self, val: u8)
        ensures
            *final(self) == (Sprite { x: (val - X_OFFSET) as i16, ..*old(self) }),
    {
        self.x = (val as i16) - X_OFFSET;
    }

    fn parse_oam_byte3(&mut self, val: u8)
        ensures
            *final(self) == (Sprite { tile_num: val, ..*old(self) }),
    {
        self.tile_num = val;
    }

    fn parse_oam_byte4(&mut self, val: u8, mode: GB)
        ensures
            final(self).data == old(self).data,
            *final(self) == (Sprite { data: old(self).data, ..old(self).spec_set_byte(FLAG_BYTE, val, mode) }),
    {
        self.above_bkgd = val < 128;
        self.y_flip = (val / 64) % 2 == 1;
        self.x_flip = (val / 32) % 2 == 1;
        if mode == GB::CGB {
            self.palette = val % 8;
            self.vram_bank = (val / 8) % 2;
        } else {
            self.palette = if (val / 16) % 2 == 1 { 1 } else { 0 };
        }
    }
}

/// The position bytes hold the screen position plus the offsets of the
/// table, so positions left of and above the screen can be written.
pub proof fn lemma_sprite_position(sprite: Sprite, y: u8, x: u8, mode: GB)
    ensures
        sprite.spec_set_byte(Y_POS_BYTE, y, mode).y == y - 16,
        sprite.spec_set_byte(X_POS_BYTE, x, mode).x == x - 8,
        sprite.spec_set_byte(Y_POS_BYTE, y, mode).spec_set_byte(X_POS_BYTE, x, mode).x == x - 8,
        sprite.spec_set_byte(Y_POS_BYTE, y, mode).spec_set_byte(X_POS_BYTE, x, mode).y == y - 16,
{
}

} // verus!
