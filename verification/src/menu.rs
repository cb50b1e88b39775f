//! What the host's menu remembers between frames: which ROM to load and how
//! to show the picture. Drawing the menu is the host's business; it reports
//! here what the user chose.

use vstd::prelude::*;
use crate::ppu::palette::Palettes;

verus! {

/// Number of colour schemes that the menu offers.
pub const PALETTE_CHOICES: usize = 1;

/// Number of shaders that the menu offers.
pub const SHADER_CHOICES: usize = 5;

/// Post-processing that the host applies to a frame.
#[derive(Clone, Copy, PartialEq, Eq, Structural, Debug)]
pub enum Shaders {
    NoShader,
    Greenscale,
    CRT,
    AsciiMono,
    AsciiColor,
}

/// How the picture is to be shown.
#[derive(Clone, Copy, PartialEq, Eq, Structural, Debug)]
pub struct DisplayOptions {
    pub palette: Palettes,
    pub shader: Shaders,
}

impl DisplayOptions {
    pub fn new(pal: Palettes, shad: Shaders) -> (options: DisplayOptions)
        ensures
            options == (DisplayOptions { palette: pal, shader: shad }),
    {
        DisplayOptions { palette: pal, shader: shad }
    }
}

/// The colour scheme at place `index` of the menu.
pub open spec fn spec_palette_choice(index: usize) -> Palettes {
    Palettes::GRAYSCALE
}

/// The shader at place `index` of the menu.
pub open spec fn spec_shader_choice(index: usize) -> Shaders {
    if index == 0 {
        Shaders::NoShader
    } else if index == 1 {
        Shaders::Greenscale
    } else if index == 2 {
        Shaders::CRT
    } else if index == 3 {
        Shaders::AsciiMono
    } else {
        Shaders::AsciiColor
    }
}

pub struct MenuState {
    /// The dialog that asks for a ROM is open.
    pub show_rom_dialog: bool,
    pub pal_index: usize,
    pub shader_index: usize,
    /// The ROM chosen last.
    pub filename: Option<String>,
    /// A ROM was chosen and has not been loaded yet.
    pub load_required: bool,
}

impl MenuState {
    /// Both selections are places of the menu.
    pub open spec fn wf(self) -> bool {
        self.pal_index < PALETTE_CHOICES && self.shader_index < SHADER_CHOICES
    }

    pub fn is_wf(&self) -> (ok: bool)
        ensures
            ok == self.wf(),
    {
        self.pal_index < PALETTE_CHOICES && self.shader_index < SHADER_CHOICES
    }

    pub fn new() -> (menu: MenuState)
        ensures
            menu.wf(),
            !menu.show_rom_dialog,
            menu.pal_index == 0,
            menu.shader_index == 0,
            menu.filename is None,
            !menu.load_required,
    {
        MenuState { show_rom_dialog: false, pal_index: 0, shader_index: 0, filename: None, load_required: false }
    }

    /// Records what the selection boxes of the menu show. A place that the
    /// menu does not have is ignored.
    pub fn create_menu(&mut self, pal_index: usize, shader_index: usize)
        requires
            old(self).wf(),
        ensures
            final(self).wf(),
            final(self).pal_index == (if pal_index < PALETTE_CHOICES { pal_index } else { old(self).pal_index }),
            final(self).shader_index == (if shader_index < SHADER_CHOICES {
                shader_index
            } else {
                old(self).shader_index
            }),
            final(self).show_rom_dialog == old(self).show_rom_dialog,
            final(self).filename == old(self).filename,
            final(self).load_required == old(self).load_required,
    {
        if pal_index < PALETTE_CHOICES {
            self.pal_index = pal_index;
        }
        if shader_index < SHADER_CHOICES {
            self.shader_index = shader_index;
        }
    }

    /// Takes what the ROM dialog returned. While the dialog is open, a
    /// chosen file closes it, becomes the ROM and makes a load due;
    /// without a choice, or with the dialog closed, nothing changes.
    pub fn handle_file_dialog(&mut self, new_file: Option<String>)
        ensures
            old(self).show_rom_dialog && new_file is Some ==> {
                &&& final(self).filename == new_file
                &&& !final(self).show_rom_dialog
                &&& final(self).load_required
                &&& final(self).pal_index == old(self).pal_index
                &&& final(self).shader_index == old(self).shader_index
            },
            !(old(self).show_rom_dialog && new_file is Some) ==> *final(self) == *old(self),
    {
        if self.show_rom_dialog {
            if new_file.is_some() {
                self.filename = new_file;
                self.show_rom_dialog = false;
                self.load_required = true;
            }
        }
    }

    /// The display options that the menu's selections stand for.
    pub fn handle_display_dialog(&self) -> (options: DisplayOptions)
        requires
            self.wf(),
        ensures
            options == (DisplayOptions {
                palette: spec_palette_choice(self.pal_index),
                shader: spec_shader_choice(self.shader_index),
            }),
    {
        let palettes = [Palettes::GRAYSCALE];
        let pal = palettes[self.pal_index];
        let shaders = [Shaders::NoShader, Shaders::Greenscale, Shaders::CRT, Shaders::AsciiMono, Shaders::AsciiColor];
        let shad = shaders[self.shader_index];
        DisplayOptions::new(pal, shad)
    }

    /// Path of the ROM chosen last.
    pub fn get_rom_filename(&self) -> (filename: &str)
        requires
            self.filename is Some,
        ensures
            filename@ == self.filename.unwrap()@,
    {
        match &self.filename {
            Some(f) => f.as_str(),
            None => "",
        }
    }

    /// Names the ROM to load and makes a load due.
    pub fn set_rom_filename(&mut self, filename: String)
        ensures
            final(self).filename == Some(filename),
            final(self).load_required,
            final(self).show_rom_dialog == old(self).show_rom_dialog,
            final(self).pal_index == old(self).pal_index,
            final(self).shader_index == old(self).shader_index,
    {
        self.filename = Some(filename);
        self.load_required = true;
    }

    /// Says whether a load is due, and marks it as done.
    pub fn is_load_time(&mut self) -> (load_time: bool)
        ensures
            load_time == old(self).load_required,
            !final(self).load_required,
            final(self).filename == old(self).filename,
            final(self).show_rom_dialog == old(self).show_rom_dialog,
            final(self).pal_index == old(self).pal_index,
            final(self).shader_index == old(self).shader_index,
    {
        let load_time = self.load_required;
        self.load_required = false;
        load_time
    }
}

} // verus!
