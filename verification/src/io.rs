//! The joypad: eight buttons in two groups of four, of which the program
//! selects one to read.
//!
//! Register $FF00:
//!
//! | Bit | Meaning                          |
//! |-----|----------------------------------|
//! | 7-6 | always set                       |
//! | 5   | clear while the buttons are read |
//! | 4   | clear while the pad is read      |
//! | 3   | Down / Start, clear when pressed |
//! | 2   | Up / Select                      |
//! | 1   | Left / B                         |
//! | 0   | Right / A                        |

use vstd::prelude::*;
use vstd::array::spec_array_update;

verus! {

#[derive(Clone, Copy, PartialEq, Eq, Structural, Debug)]
pub enum Buttons {
    A,
    B,
    Select,
    Start,
    Right,
    Left,
    Up,
    Down,
}

impl Buttons {
    /// Place of the button in the key matrix: the four buttons first,
    /// then the four directions, each group from bit 0 up.
    pub open spec fn spec_index(self) -> int {
        match self {
            Buttons::A => 0,
            Buttons::B => 1,
            Buttons::Select => 2,
            Buttons::Start => 3,
            Buttons::Right => 4,
            Buttons::Left => 5,
            Buttons::Up => 6,
            Buttons::Down => 7,
        }
    }

    pub fn get_index(&self) -> (index: usize)
        ensures
            index == self.spec_index(),
            index < 8,
    {
        match self {
            Buttons::A => 0,
            Buttons::B => 1,
            Buttons::Select => 2,
            Buttons::Start => 3,
            Buttons::Right => 4,
            Buttons::Left => 5,
            Buttons::Up => 6,
            Buttons::Down => 7,
        }
    }
}

/// Four keys as the low four bits of the register: a bit is clear while
/// its key is pressed.
pub open spec fn spec_pack_keys(k0: bool, k1: bool, k2: bool, k3: bool) -> u8 {
    ((if k0 { 0int } else { 1int }) + (if k1 { 0int } else { 2int }) + (if k2 { 0int } else { 4int }) + (if k3 {
        0int
    } else {
        8int
    })) as u8
}

pub struct IO {
    /// Which keys are held down, by matrix place.
    pub btns: [bool; 8],
    /// The program reads the four buttons.
    pub get_btn_keys: bool,
    /// The program reads the four directions.
    pub get_dir_keys: bool,
}

impl IO {
    pub open spec fn spec_btn_keys(self) -> u8 {
        spec_pack_keys(self.btns[0], self.btns[1], self.btns[2], self.btns[3])
    }

    pub open spec fn spec_dir_keys(self) -> u8 {
        spec_pack_keys(self.btns[4], self.btns[5], self.btns[6], self.btns[7])
    }

    /// The low four bits that a read shows: those of the buttons when
    /// they are selected, else those of the directions when they are, else
    /// none.
    pub open spec fn spec_keys(self) -> u8 {
        if self.get_btn_keys {
            self.spec_btn_keys()
        } else if self.get_dir_keys {
            self.spec_dir_keys()
        } else {
            0
        }
    }

    /// What a read of the register returns: two set bits, the two
    /// select bits (clear for a selected group), and the keys.
    pub open spec fn spec_read(self) -> u8 {
        (0xC0 + (if self.get_btn_keys { 0int } else { 0x20int }) + (if self.get_dir_keys { 0int } else { 0x10int })
            + self.spec_keys()) as u8
    }

    /// The joypad after `val` was written to the register: bits 5 and 4
    /// select the groups, a clear bit selecting.
    pub open spec fn spec_poll(self, val: u8) -> IO {
        IO { get_btn_keys: (val / 32) % 2 == 0, get_dir_keys: (val / 16) % 2 == 0, ..self }
    }

    /// The joypad after a key went down or up.
    pub open spec fn spec_toggle(self, btn: Buttons, pressed: bool) -> IO {
        IO { btns: spec_array_update(self.btns, btn.spec_index(), pressed), ..self }
    }

    /// Whether a key event makes one of the four key bits that a read
    /// shows go from set to clear.
    pub open spec fn spec_toggle_interrupts(self, btn: Buttons, pressed: bool) -> bool {
        let before = self.spec_keys();
        let after = self.spec_toggle(btn, pressed).spec_keys();
        exists|bit: int|
            0 <= bit < 4 && #[trigger] spec_key_bit(before, bit) && !spec_key_bit(after, bit)
    }

    pub fn new() -> (io: IO)
        ensures
            !io.get_btn_keys,
            !io.get_dir_keys,
            forall|i: int| 0 <= i < 8 ==> !io.btns[i],
    {
        IO { btns: [false; 8], get_btn_keys: false, get_dir_keys: false }
    }

    /// Records that a key went down or up.
    pub fn btn_toggle(&mut self, btn: Buttons, pressed: bool)
        ensures
            *final(self) == old(self).spec_toggle(btn, pressed),
    {
        let i = btn.get_index();
        self.btns[i] = pressed;
    }

    /// Selects which group of keys reads show.
    pub fn poll_btns(&mut self, val: u8)
        ensures
            *final(self) == old(self).spec_poll(val),
    {
        self.get_btn_keys = (val / 32) % 2 == 0;
        self.get_dir_keys = (val / 16) % 2 == 0;
    }

    /// Reads the register.
    pub fn read_btns(&self) -> (val: u8)
        ensures
            val == self.spec_read(),
    {
        let keys = if self.get_btn_keys {
            self.pack_btn_keys()
        } else if self.get_dir_keys {
            self.pack_dir_keys()
        } else {
            0
        };
        let btn_select: u8 = if self.get_btn_keys { 0 } else { 0x20 };
        let dir_select: u8 = if self.get_dir_keys { 0 } else { 0x10 };
        0xC0 + btn_select + dir_select + keys
    }

    /// Whether this key event has to request the joypad interrupt: the
    /// key goes down, was up, and belongs to the group that reads show.
    pub fn toggle_interrupts(&self, btn: Buttons, pressed: bool) -> (interrupt: bool)
        ensures
            interrupt == self.spec_toggle_interrupts(btn, pressed),
    {
        let i = btn.get_index();
        let shown = if self.get_btn_keys { i < 4 } else { self.get_dir_keys && i >= 4 };
        let interrupt = pressed && !self.btns[i] && shown;
        proof {
            let before = self.spec_keys();
            let after = self.spec_toggle(btn, pressed).spec_keys();
            if interrupt {
                let bit = if i < 4 { i as int } else { i - 4 };
                assert(spec_key_bit(before, bit) && !spec_key_bit(after, bit));
            } else {
                assert forall|bit: int| 0 <= bit < 4 && #[trigger] spec_key_bit(before, bit) implies spec_key_bit(
                    after,
                    bit,
                ) by {}
            }
        }
        interrupt
    }

    pub fn pack_btn_keys(&self) -> (keys: u8)
        ensures
            keys == self.spec_btn_keys(),
            keys < 16,
    {
        IO::pack_keys(self.btns[0], self.btns[1], self.btns[2], self.btns[3])
    }

    pub fn pack_dir_keys(&self) -> (keys: u8)
        ensures
            keys == self.spec_dir_keys(),
            keys < 16,
    {
        IO::pack_keys(self.btns[4], self.btns[5], self.btns[6], self.btns[7])
    }

    fn pack_keys(k0: bool, k1: bool, k2: bool, k3: bool) -> (keys: u8)
        ensures
            keys == spec_pack_keys(k0, k1, k2, k3),
            keys < 16,
    {
        let b0: u8 = if k0 { 0 } else { 1 };
        let b1: u8 = if k1 { 0 } else { 2 };
        let b2: u8 = if k2 { 0 } else { 4 };
        let b3: u8 = if k3 { 0 } else { 8 };
        b0 + b1 + b2 + b3
    }
}

impl Default for IO {
    fn default() -> (io: IO)
        ensures
            !io.get_btn_keys,
            !io.get_dir_keys,
            forall|i: int| 0 <= i < 8 ==> !io.btns[i],
    {
        IO::new()
    }
}

/// Bit `bit` of the four key bits.
pub open spec fn spec_key_bit(keys: u8, bit: int) -> bool {
    if bit == 0 {
        keys % 2 == 1
    } else if bit == 1 {
        (keys / 2) % 2 == 1
    } else if bit == 2 {
        (keys / 4) % 2 == 1
    } else {
        (keys / 8) % 2 == 1
    }
}

/// A read shows a selected key as a clear bit exactly while it is held
/// down, and always shows bits 7 and 6 set.
pub proof fn lemma_pressed_reads_clear(io: IO, btn: Buttons)
    requires
        io.get_btn_keys || io.get_dir_keys,
        io.get_btn_keys ==> btn.spec_index() < 4,
        !io.get_btn_keys ==> btn.spec_index() >= 4,
    ensures
        spec_key_bit(io.spec_keys(), btn.spec_index() % 4) == !io.btns[btn.spec_index()],
        io.spec_read() >= 0xC0,
        io.spec_read() % 16 == io.spec_keys(),
{
}

} // verus!
