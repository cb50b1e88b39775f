//! The core of a Game Boy: the processor, the memory bus with the cartridge
//! and its bank controllers, the picture unit, the timer, the interrupt
//! controller and the joypad, each with its behaviour stated and proved.
//!
//! The host creates a machine with [`cpu::Cpu::new`], loads a cartridge
//! image with [`cpu::Cpu::load_game`], runs it frame by frame with
//! [`cpu::Cpu::step_frame`], shows [`cpu::Cpu::framebuffer`] and reports
//! keys with [`cpu::Cpu::button_event`].

pub mod bus;
pub mod cartridge;
pub mod cpu;
pub mod interrupt;
pub mod io;
pub mod menu;
pub mod ppu;
pub mod utils;
