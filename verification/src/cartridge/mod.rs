//! The cartridge: its ROM, its external RAM and the bank controller that
//! maps both into the machine's address space.

use vstd::prelude::*;
use vstd::slice::slice_subrange;
use vstd::slice::slice_to_vec;
use vstd::string::StringSliceAdditionalSpecFns;
use vstd::utf8::valid_utf8;
use crate::cartridge::mbc1::mbc1_read_byte;
use crate::cartridge::mbc1::mbc1_write_byte;
use crate::cartridge::mbc1::spec_mbc1_read;
use crate::cartridge::mbc1::spec_mbc1_write;
use crate::cartridge::mbc1::spec_mbc1_dirty;
use crate::cartridge::mbc2::mbc2_read_byte;
use crate::cartridge::mbc2::mbc2_write_byte;
use crate::cartridge::mbc2::spec_mbc2_read;
use crate::cartridge::mbc2::spec_mbc2_write;
use crate::cartridge::mbc2::spec_mbc2_dirty;
use crate::cartridge::mbc3::mbc3_read_byte;
use crate::cartridge::mbc3::mbc3_write_byte;
use crate::cartridge::mbc3::spec_mbc3_read;
use crate::cartridge::mbc3::spec_mbc3_write;
use crate::cartridge::mbc3::spec_mbc3_dirty;
use crate::cartridge::mbc5::mbc5_read_byte;
use crate::cartridge::mbc5::mbc5_write_byte;
use crate::cartridge::mbc5::spec_mbc5_read;
use crate::cartridge::mbc5::spec_mbc5_write;
use crate::cartridge::mbc5::spec_mbc5_dirty;

pub mod mbc1;
pub mod mbc2;
pub mod mbc3;
pub mod mbc5;

verus! {

pub const ROM_BANK_SIZE: usize = 0x4000;

pub const RAM_BANK_SIZE: usize = 0x2000;

/// External RAM of the controllers with 8 KiB banks: 32 KiB.
pub const MAX_RAM_SIZE: usize = 0x8000;

/// External RAM of the largest controller: 128 KiB.
pub const MBC5_MAX_RAM_SIZE: usize = 0x20000;

/// External RAM built into the second controller: 512 half-bytes.
pub const MBC2_RAM_SIZE: usize = 512;

pub const ROM_START: u16 = 0x0000;

pub const ROM_STOP: u16 = 0x7FFF;

pub const RAM_ENABLE_STOP: u16 = 0x1FFF;

pub const ROM_BANK_NUM_START: u16 = 0x2000;

pub const ROM_BANK_NUM_STOP: u16 = 0x3FFF;

pub const RAM_BANK_NUM_START: u16 = 0x4000;

pub const RAM_BANK_NUM_STOP: u16 = 0x5FFF;

pub const ROM_RAM_MODE_START: u16 = 0x6000;

pub const EXT_RAM_START: u16 = 0xA000;

pub const EXT_RAM_STOP: u16 = 0xBFFF;

/// Shortest image that holds a whole header.
pub const HEADER_END: usize = 0x0150;

pub const TITLE_ADDR: usize = 0x0134;

/// End of the title in an image for the monochrome model.
pub const TITLE_END: usize = 0x0143;

/// End of the title in an image for the colour model, which uses the last
/// four bytes for a maker code.
pub const CGB_TITLE_END: usize = 0x013F;

pub const CGB_FLAG_ADDR: usize = 0x0143;

pub const MBC_TYPE_ADDR: usize = 0x0147;

/// The kinds of bank controller.
#[derive(Clone, Copy, PartialEq, Eq, Structural, Debug)]
pub enum MBC {
    NONE,
    MBC1,
    MBC2,
    MBC3,
    HuC1,
    MBC5,
}

/// Why an image cannot be loaded.
#[derive(Clone, Copy, PartialEq, Eq, Structural, Debug)]
pub enum CartError {
    /// The image is too short to hold a header.
    RomTooSmall,
    /// The header names a controller that is not known.
    UnsupportedMBC,
}

/// The controller that a header's cartridge-type byte names, if any.
pub open spec fn spec_mbc_of(code: u8) -> Option<MBC> {
    if code == 0x00 {
        Some(MBC::NONE)
    } else if 0x01 <= code <= 0x03 {
        Some(MBC::MBC1)
    } else if 0x05 <= code <= 0x06 {
        Some(MBC::MBC2)
    } else if 0x0F <= code <= 0x13 {
        Some(MBC::MBC3)
    } else if 0x19 <= code <= 0x1E {
        Some(MBC::MBC5)
    } else {
        None
    }
}

/// Bytes of external RAM that a cartridge with this controller gets.
pub open spec fn spec_ram_size_of(mbc: MBC) -> usize {
    match mbc {
        MBC::MBC5 => MBC5_MAX_RAM_SIZE,
        MBC::MBC2 => MBC2_RAM_SIZE,
        _ => MAX_RAM_SIZE,
    }
}

/// Whether a value written to an enable register switches external RAM on.
pub open spec fn spec_enables_ram(val: u8) -> bool {
    val % 16 == 0x0A
}

pub fn enables_ram(val: u8) -> (on: bool)
    ensures
        on == spec_enables_ram(val),
{
    val % 16 == 0x0A
}

/// The text that `bytes` encode, if they are well-formed UTF-8.
///
/// This calls `std::str::from_utf8` and is believed, not proved: the call
/// succeeds exactly on well-formed UTF-8, and the text it returns is
/// encoded by the very bytes it was given.
#[verifier::external_body]
fn text_of(bytes: &[u8]) -> (text: Option<&str>)
    ensures
        text is Some <==> valid_utf8(bytes@),
        text is Some ==> text.unwrap().spec_bytes() == bytes@,
{
    std::str::from_utf8(bytes).ok()
}

pub struct Cart {
    pub mbc: MBC,
    pub rom_bank: u16,
    pub ram_bank: u8,
    pub rom: Vec<u8>,
    pub ram: [u8; MBC5_MAX_RAM_SIZE],
    /// Bytes of `ram` that the cartridge has.
    pub ram_size: usize,
    pub ext_ram_enable: bool,
    /// MBC1: the upper bank register selects ROM banks, not RAM banks.
    pub rom_mode: bool,
    pub cgb: bool,
}

impl Cart {
    /// Index into the image of the byte that `addr` (below $8000) is mapped
    /// to: bank 0 in the lower half, the selected bank in the upper.
    pub open spec fn spec_rom_index(self, addr: u16) -> int {
        if addr < 0x4000 {
            addr as int
        } else {
            self.rom_bank as int * 0x4000 + (addr - 0x4000)
        }
    }

    /// Index into external RAM of the byte that `addr` ($A000-$BFFF) is
    /// mapped to under 8 KiB banking.
    pub open spec fn spec_ram_index(self, addr: u16) -> int {
        self.ram_bank as int * 0x2000 + (addr - 0xA000)
    }

    /// The byte that a read of `addr` returns. An address that the
    /// image or the RAM does not back reads as $FF.
    #[verifier::opaque]
    pub open spec fn spec_read(self, addr: u16) -> u8 {
        if addr <= ROM_STOP {
            if self.spec_rom_index(addr) < self.rom@.len() {
                self.rom@[self.spec_rom_index(addr)]
            } else {
                0xFF
            }
        } else if EXT_RAM_START <= addr <= EXT_RAM_STOP {
            match self.mbc {
                MBC::MBC1 => spec_mbc1_read(self, addr),
                MBC::MBC2 => spec_mbc2_read(self, addr),
                MBC::MBC3 => spec_mbc3_read(self, addr),
                MBC::MBC5 => spec_mbc5_read(self, addr),
                _ => 0xFF,
            }
        } else {
            0xFF
        }
    }

    /// The cartridge after `val` was written to `addr`.
    #[verifier::opaque]
    pub open spec fn spec_write(self, addr: u16, val: u8) -> Cart {
        if addr <= ROM_STOP || EXT_RAM_START <= addr <= EXT_RAM_STOP {
            match self.mbc {
                MBC::MBC1 => spec_mbc1_write(self, addr, val),
                MBC::MBC2 => spec_mbc2_write(self, addr, val),
                MBC::MBC3 => spec_mbc3_write(self, addr, val),
                MBC::MBC5 => spec_mbc5_write(self, addr, val),
                _ => self,
            }
        } else {
            self
        }
    }

    /// Whether writing to `addr` stores a byte in external RAM.
    pub open spec fn spec_write_dirty(self, addr: u16) -> bool {
        match self.mbc {
            MBC::MBC1 => spec_mbc1_dirty(self, addr),
            MBC::MBC2 => spec_mbc2_dirty(self, addr),
            MBC::MBC3 => spec_mbc3_dirty(self, addr),
            MBC::MBC5 => spec_mbc5_dirty(self, addr),
            _ => false,
        }
    }

    /// Where the title ends in the header.
    pub open spec fn spec_title_end(self) -> int {
        if self.cgb {
            CGB_TITLE_END as int
        } else {
            TITLE_END as int
        }
    }

    /// The bytes of the header that hold the title.
    pub open spec fn spec_title_bytes(self) -> Seq<u8> {
        self.rom@.subrange(TITLE_ADDR as int, self.spec_title_end())
    }

    /// The switchable half of the ROM area never shows bank 0 under the
    /// first three controllers, nor a bank whose low five bits are zero
    /// under the first.
    pub open spec fn spec_bank_in_order(self) -> bool {
        match self.mbc {
            MBC::MBC1 => self.rom_bank % 32 != 0 && self.rom_bank < 128,
            MBC::MBC2 => 1 <= self.rom_bank < 16,
            MBC::MBC3 => 1 <= self.rom_bank < 128,
            MBC::MBC5 => self.rom_bank < 512,
            _ => self.rom_bank == 1,
        }
    }

    /// The state that loading leaves the banking registers and the RAM in.
    pub open spec fn spec_fresh(self) -> bool {
        &&& self.rom_bank == 1
        &&& self.ram_bank == 0
        &&& !self.ext_ram_enable
        &&& self.rom_mode
        &&& forall|i: int| 0 <= i < MBC5_MAX_RAM_SIZE ==> self.ram[i] == 0
    }

    /// An empty cartridge slot.
    pub fn new() -> (cart: Cart)
        ensures
            cart.mbc == MBC::NONE,
            cart.rom@.len() == 0,
            cart.ram_size == 0,
            !cart.cgb,
            cart.spec_fresh(),
    {
        Cart {
            mbc: MBC::NONE,
            rom_bank: 1,
            ram_bank: 0,
            rom: Vec::new(),
            ram: [0u8; MBC5_MAX_RAM_SIZE],
            ram_size: 0,
            ext_ram_enable: false,
            rom_mode: true,
            cgb: false,
        }
    }

    /// Bytes of external RAM that the host sees.
    pub open spec fn spec_ram_len(self) -> int {
        if self.ram_size <= MBC5_MAX_RAM_SIZE {
            self.ram_size as int
        } else {
            MBC5_MAX_RAM_SIZE as int
        }
    }

    /// The external RAM, for the host to save.
    pub fn get_ext_ram(&self) -> (ram: &[u8])
        ensures
            ram@ == self.ram@.subrange(0, self.spec_ram_len()),
    {
        let len = if self.ram_size <= MBC5_MAX_RAM_SIZE { self.ram_size } else { MBC5_MAX_RAM_SIZE };
        slice_subrange(self.ram.as_slice(), 0, len)
    }

    /// The title of the game, as the header gives it. There is none
    /// before an image is loaded, nor if the bytes are not text.
    pub fn get_title(&self) -> (title: Option<&str>)
        ensures
            title is Some <==> self.rom@.len() >= TITLE_END && valid_utf8(self.spec_title_bytes()),
            title is Some ==> title.unwrap().spec_bytes() == self.spec_title_bytes(),
    {
        if self.rom.len() < TITLE_END {
            return None;
        }
        let end = if self.cgb { CGB_TITLE_END } else { TITLE_END };
        text_of(slice_subrange(self.rom.as_slice(), TITLE_ADDR, end))
    }

    fn mbc_of(code: u8) -> (mbc: Option<MBC>)
        ensures
            mbc == spec_mbc_of(code),
    {
        match code {
            0x00 => Some(MBC::NONE),
            0x01..=0x03 => Some(MBC::MBC1),
            0x05..=0x06 => Some(MBC::MBC2),
            0x0F..=0x13 => Some(MBC::MBC3),
            0x19..=0x1E => Some(MBC::MBC5),
            _ => None,
        }
    }

    fn ram_size_of(mbc: MBC) -> (size: usize)
        ensures
            size == spec_ram_size_of(mbc),
    {
        match mbc {
            MBC::MBC5 => MBC5_MAX_RAM_SIZE,
            MBC::MBC2 => MBC2_RAM_SIZE,
            _ => MAX_RAM_SIZE,
        }
    }

    /// Loads an image: reads the controller from the header, takes the
    /// bytes, clears the RAM and puts the banking registers in their
    /// initial state. An image without a whole header, or with an unknown
    /// controller, is refused and leaves the cartridge as it was.
    pub fn load_cart(&mut self, rom: &[u8]) -> (result: Result<(), CartError>)
        ensures
            rom@.len() < HEADER_END <==> result == Err::<(), CartError>(CartError::RomTooSmall),
            rom@.len() >= HEADER_END && spec_mbc_of(rom@[MBC_TYPE_ADDR as int]) is None <==> result
                == Err::<(), CartError>(CartError::UnsupportedMBC),
            result is Err ==> *final(self) == *old(self),
            result is Ok ==> {
                &&& final(self).rom@ == rom@
                &&& Some(final(self).mbc) == spec_mbc_of(rom@[MBC_TYPE_ADDR as int])
                &&& final(self).ram_size == spec_ram_size_of(final(self).mbc)
                &&& final(self).cgb == (rom@[CGB_FLAG_ADDR as int] == 0x80 || rom@[CGB_FLAG_ADDR as int]
                    == 0xC0)
                &&& final(self).spec_fresh()
            },
            result is Ok ==> forall|addr: u16|
                addr < 0x4000 && addr < rom@.len() ==> #[trigger] final(self).spec_read(addr) == rom@[addr as int],
    {
        reveal(Cart::spec_read);
        if rom.len() < HEADER_END {
            return Err(CartError::RomTooSmall);
        }
        let mbc = match Cart::mbc_of(rom[MBC_TYPE_ADDR]) {
            Some(mbc) => mbc,
            None => {
                return Err(CartError::UnsupportedMBC);
            },
        };
        let flag = rom[CGB_FLAG_ADDR];
        self.rom = slice_to_vec(rom);
        self.mbc = mbc;
        self.cgb = flag == 0x80 || flag == 0xC0;
        self.ram = [0u8; MBC5_MAX_RAM_SIZE];
        self.ram_size = Cart::ram_size_of(mbc);
        self.rom_bank = 1;
        self.ram_bank = 0;
        self.ext_ram_enable = false;
        self.rom_mode = true;
        Ok(())
    }

    /// Reads the byte that the cartridge shows at `addr`.
    pub fn read_cart(&self, address: u16) -> (val: u8)
        ensures
            val == self.spec_read(address),
    {
        reveal(Cart::spec_read);
        if address < 0x4000 {
            let index = address as usize;
            if index < self.rom.len() {
                self.rom[index]
            } else {
                0xFF
            }
        } else if address <= ROM_STOP {
            let rel_address = (address as usize) - ROM_BANK_SIZE;
            let bank_address = (self.rom_bank as usize) * ROM_BANK_SIZE + rel_address;
            if bank_address < self.rom.len() {
                self.rom[bank_address]
            } else {
                0xFF
            }
        } else if EXT_RAM_START <= address && address <= EXT_RAM_STOP {
            match self.mbc {
                MBC::MBC1 => mbc1_read_byte(self, address),
                MBC::MBC2 => mbc2_read_byte(self, address),
                MBC::MBC3 => mbc3_read_byte(self, address),
                MBC::MBC5 => mbc5_read_byte(self, address),
                _ => 0xFF,
            }
        } else {
            0xFF
        }
    }

    /// Writes `val` to a control register ($0000-$7FFF) or to external
    /// RAM ($A000-$BFFF). Says whether a byte of external RAM was stored.
    pub fn write_cart(&mut self, addr: u16, val: u8) -> (dirty: bool)
        ensures
            *final(self) == old(self).spec_write(addr, val),
            dirty == ((addr <= ROM_STOP || EXT_RAM_START <= addr <= EXT_RAM_STOP) && old(
                self,
            ).spec_write_dirty(addr)),
    {
        reveal(Cart::spec_write);
        if addr <= ROM_STOP || (EXT_RAM_START <= addr && addr <= EXT_RAM_STOP) {
            match self.mbc {
                MBC::MBC1 => mbc1_write_byte(self, addr, val),
                MBC::MBC2 => mbc2_write_byte(self, addr, val),
                MBC::MBC3 => mbc3_write_byte(self, addr, val),
                MBC::MBC5 => mbc5_write_byte(self, addr, val),
                _ => false,
            }
        } else {
            false
        }
    }
}

/// The bank number is in order after a load, and no write to the
/// cartridge brings it out of order.
pub proof fn lemma_bank_stays_in_order(cart: Cart, addr: u16, val: u8)
    ensures
        cart.spec_fresh() ==> cart.spec_bank_in_order(),
        cart.spec_bank_in_order() ==> cart.spec_write(addr, val).spec_bank_in_order(),
        cart.spec_write(addr, val).mbc == cart.mbc,
{
    reveal(Cart::spec_write);
}

/// After a load, the lower half of the ROM area shows the start of the
/// image byte for byte, whatever is written to the cartridge later.
pub proof fn lemma_bank_zero_is_fixed(cart: Cart, addr: u16, waddr: u16, val: u8)
    requires
        addr < 0x4000,
    ensures
        cart.spec_write(waddr, val).spec_read(addr) == cart.spec_read(addr),
        cart.spec_write(waddr, val).rom == cart.rom,
{
    reveal(Cart::spec_read);
    reveal(Cart::spec_write);
}

} // verus!
