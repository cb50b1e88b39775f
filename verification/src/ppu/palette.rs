//! Host colour schemes: the RGBA colours that the four shades of the
//! monochrome screen are shown in.

use vstd::prelude::*;
use crate::utils::COLOR_CHANNELS;

verus! {

/// Shades of a monochrome palette.
pub const DMG_PAL_SIZE: usize = 4;

/// Colours of a colour-model palette.
pub const CGB_PAL_SIZE: usize = 32;

/// Four RGBA colours, lightest shade first.
pub type Shades = [[u8; COLOR_CHANNELS]; DMG_PAL_SIZE];

pub const SHADES_GRAYSCALE: Shades = [[255, 255, 255, 255], [128, 128, 128, 255], [64, 64, 64, 255], [0, 0, 0, 255]];

pub const SHADES_BROWN: Shades = [[255, 255, 255, 255], [255, 173, 99, 255], [131, 49, 0, 255], [0, 0, 0, 255]];

pub const SHADES_RED: Shades = [[255, 255, 255, 255], [255, 133, 132, 255], [148, 58, 58, 255], [0, 0, 0, 255]];

pub const SHADES_DARK_BROWN: Shades = [[255, 231, 197, 255], [206, 156, 133, 255], [132, 107, 41, 255], [91, 49, 9, 255]];

pub const SHADES_BLUE: Shades = [[255, 255, 255, 255], [101, 164, 155, 255], [0, 0, 254, 255], [0, 0, 0, 255]];

pub const SHADES_DARK_BLUE: Shades = [[255, 255, 255, 255], [139, 140, 222, 255], [83, 82, 140, 255], [0, 0, 0, 255]];

pub const SHADES_PASTEL: Shades = [[255, 255, 165, 255], [254, 148, 148, 255], [147, 148, 254, 255], [0, 0, 0, 255]];

pub const SHADES_ORANGE: Shades = [[255, 255, 255, 255], [255, 255, 0, 255], [254, 0, 0, 255], [0, 0, 0, 255]];

pub const SHADES_YELLOW: Shades = [[255, 255, 255, 255], [255, 255, 0, 255], [125, 73, 0, 255], [0, 0, 0, 255]];

pub const SHADES_GREEN: Shades = [[255, 255, 255, 255], [81, 255, 0, 255], [255, 66, 0, 255], [0, 0, 0, 255]];

pub const SHADES_DARK_GREEN: Shades = [[255, 255, 255, 255], [81, 255, 0, 255], [1, 99, 198, 255], [0, 0, 0, 255]];

pub const SHADES_INVERTED: Shades = [[0, 0, 0, 255], [0, 132, 134, 255], [255, 222, 0, 255], [255, 255, 255, 255]];

pub const SHADES_LIME: Shades = [[255, 255, 255, 255], [123, 255, 48, 255], [0, 131, 0, 255], [0, 0, 0, 255]];

pub const SHADES_RUST: Shades = [[255, 255, 255, 255], [255, 133, 132, 255], [131, 49, 0, 255], [0, 0, 0, 255]];

/// The colour schemes a host can choose from.
#[allow(non_camel_case_types)]
#[derive(Clone, Copy, PartialEq, Eq, Structural, Debug)]
pub enum Palettes {
    GRAYSCALE,
    BROWN,
    BLUE,
    PASTEL,
    GREEN,
    RED,
    DARK_BLUE,
    ORANGE,
    DARK_GREEN,
    DARK_BROWN,
    YELLOW,
    INVERTED,
}

/// Colours of the background layer under a scheme.
pub open spec fn spec_bg_pal(pal: Palettes) -> Shades {
    match pal {
        Palettes::GRAYSCALE => SHADES_GRAYSCALE,
        Palettes::BROWN => SHADES_BROWN,
        Palettes::RED => SHADES_RED,
        Palettes::DARK_BROWN => SHADES_DARK_BROWN,
        Palettes::BLUE => SHADES_BLUE,
        Palettes::DARK_BLUE => SHADES_DARK_BLUE,
        Palettes::PASTEL => SHADES_PASTEL,
        Palettes::ORANGE => SHADES_ORANGE,
        Palettes::YELLOW => SHADES_YELLOW,
        Palettes::GREEN => SHADES_GREEN,
        Palettes::DARK_GREEN => SHADES_DARK_GREEN,
        Palettes::INVERTED => SHADES_INVERTED,
    }
}

/// Colours of sprites that use object palette 0. Six schemes colour
/// them as the background; the others give them a set of their own.
pub open spec fn spec_obj0_pal(pal: Palettes) -> Shades {
    match pal {
        Palettes::RED => SHADES_LIME,
        Palettes::DARK_BROWN => SHADES_BROWN,
        Palettes::BLUE => SHADES_RUST,
        Palettes::DARK_BLUE => SHADES_RED,
        Palettes::YELLOW => SHADES_BLUE,
        Palettes::DARK_GREEN => SHADES_RED,
        _ => spec_bg_pal(pal),
    }
}

/// Colours of sprites that use object palette 1.
pub open spec fn spec_obj1_pal(pal: Palettes) -> Shades {
    match pal {
        Palettes::DARK_BROWN => spec_obj0_pal(pal),
        Palettes::DARK_GREEN => spec_obj0_pal(pal),
        Palettes::RED => SHADES_BLUE,
        Palettes::BLUE => SHADES_LIME,
        Palettes::DARK_BLUE => SHADES_BLUE,
        Palettes::YELLOW => SHADES_LIME,
        _ => spec_bg_pal(pal),
    }
}

/// One 5-bit colour channel widened to 8 bits: full brightness only for
/// the highest 5-bit value, dark for every other.
pub open spec fn spec_five_to_eight(five_bit: u8) -> u8 {
    ((five_bit / 0x1F) * 0xFF) as u8
}

/// RGBA colour of a 15-bit colour word.
pub open spec fn spec_gbc2rgba(gbc: u16) -> [u8; COLOR_CHANNELS] {
    [
        spec_five_to_eight((gbc & 0x1F) as u8),
        spec_five_to_eight(((gbc & 0x1F0) >> 5) as u8),
        spec_five_to_eight(((gbc & 0x7C00) >> 10) as u8),
        0xFF,
    ]
}

/// The colour scheme in use.
pub struct Palette {
    pub sys_pal: Palettes,
}

impl Palette {
    pub fn new() -> (p: Palette)
        ensures
            p.sys_pal == Palettes::GRAYSCALE,
    {
        Palette { sys_pal: Palettes::GRAYSCALE }
    }

    /// Chooses the colour scheme.
    pub fn set_sys_pal(&mut self, pal: Palettes)
        ensures
            final(self).sys_pal == pal,
    {
        self.sys_pal = pal;
    }

    /// Colours of the background layer.
    pub fn get_bg_pal(&self) -> (colors: Shades)
        ensures
            colors == spec_bg_pal(self.sys_pal),
    {
        match self.sys_pal {
            Palettes::GRAYSCALE => SHADES_GRAYSCALE,
            Palettes::BROWN => SHADES_BROWN,
            Palettes::RED => SHADES_RED,
            Palettes::DARK_BROWN => SHADES_DARK_BROWN,
            Palettes::BLUE => SHADES_BLUE,
            Palettes::DARK_BLUE => SHADES_DARK_BLUE,
            Palettes::PASTEL => SHADES_PASTEL,
            Palettes::ORANGE => SHADES_ORANGE,
            Palettes::YELLOW => SHADES_YELLOW,
            Palettes::GREEN => SHADES_GREEN,
            Palettes::DARK_GREEN => SHADES_DARK_GREEN,
            Palettes::INVERTED => SHADES_INVERTED,
        }
    }

    /// Colours of the sprites that use object palette `pal`.
    pub fn get_spr_pal(&self, pal: u8) -> (colors: Shades)
        requires
            pal <= 1,
        ensures
            pal == 0 ==> colors == spec_obj0_pal(self.sys_pal),
            pal == 1 ==> colors == spec_obj1_pal(self.sys_pal),
    {
        if pal == 0 {
            self.get_obj0_pal()
        } else {
            self.get_obj1_pal()
        }
    }

    pub fn get_obj0_pal(&self) -> (colors: Shades)
        ensures
            colors == spec_obj0_pal(self.sys_pal),
    {
        match self.sys_pal {
            Palettes::GRAYSCALE => self.get_bg_pal(),
            Palettes::BROWN => self.get_bg_pal(),
            Palettes::PASTEL => self.get_bg_pal(),
            Palettes::ORANGE => self.get_bg_pal(),
            Palettes::GREEN => self.get_bg_pal(),
            Palettes::INVERTED => self.get_bg_pal(),
            Palettes::RED => SHADES_LIME,
            Palettes::DARK_BROWN => SHADES_BROWN,
            Palettes::BLUE => SHADES_RUST,
            Palettes::DARK_BLUE => SHADES_RED,
            Palettes::YELLOW => SHADES_BLUE,
            Palettes::DARK_GREEN => SHADES_RED,
        }
    }

    pub fn get_obj1_pal(&self) -> (colors: Shades)
        ensures
            colors == spec_obj1_pal(self.sys_pal),
    {
        match self.sys_pal {
            Palettes::GRAYSCALE => self.get_bg_pal(),
            Palettes::BROWN => self.get_bg_pal(),
            Palettes::PASTEL => self.get_bg_pal(),
            Palettes::ORANGE => self.get_bg_pal(),
            Palettes::GREEN => self.get_bg_pal(),
            Palettes::INVERTED => self.get_bg_pal(),
            Palettes::DARK_BROWN => self.get_obj0_pal(),
            Palettes::DARK_GREEN => self.get_obj0_pal(),
            Palettes::RED => SHADES_BLUE,
            Palettes::BLUE => SHADES_LIME,
            Palettes::DARK_BLUE => SHADES_BLUE,
            Palettes::YELLOW => SHADES_LIME,
        }
    }
}

/// Every colour of every scheme is opaque.
pub proof fn lemma_palettes_opaque(pal: Palettes, shade: int)
    requires
        0 <= shade < 4,
    ensures
        spec_bg_pal(pal)[shade][3] == 255,
        spec_obj0_pal(pal)[shade][3] == 255,
        spec_obj1_pal(pal)[shade][3] == 255,
{
}

/// Converts a 15-bit colour word to RGBA.
pub fn gbc2rgba(gbc: u16) -> (rgba: [u8; COLOR_CHANNELS])
    ensures
        rgba == spec_gbc2rgba(gbc),
{
    proof {
        assert((gbc & 0x1F) < 32 && ((gbc & 0x1F0) >> 5) < 32 && ((gbc & 0x7C00) >> 10) < 32)
            by (bit_vector);
    }
    let r = five_bit_to_eight_bit((gbc & 0x1F) as u8);
    let g = five_bit_to_eight_bit(((gbc & 0x1F0) >> 5) as u8);
    let b = five_bit_to_eight_bit(((gbc & 0x7C00) >> 10) as u8);
    let rgba = [r, g, b, 0xFF];
    assert(rgba =~= spec_gbc2rgba(gbc));
    rgba
}

/// Widens one 5-bit colour channel to 8 bits.
pub fn five_bit_to_eight_bit(five_bit: u8) -> (eight_bit: u8)
    requires
        five_bit < 32,
    ensures
        eight_bit == spec_five_to_eight(five_bit),
{
    (five_bit / 0x1F) * 0xFF
}

} // verus!
