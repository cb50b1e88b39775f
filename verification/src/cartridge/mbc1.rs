//! The first bank controller: up to 128 ROM banks through a 5-bit and a
//! 2-bit register, or 4 RAM banks when the 2-bit register is switched over.

use vstd::prelude::*;
use vstd::array::spec_array_update;
use crate::cartridge::Cart;
use crate::cartridge::enables_ram;
use crate::cartridge::spec_enables_ram;
use crate::cartridge::EXT_RAM_START;
use crate::cartridge::EXT_RAM_STOP;
use crate::cartridge::RAM_BANK_SIZE;
use crate::cartridge::RAM_ENABLE_STOP;
use crate::cartridge::ROM_BANK_NUM_STOP;
use crate::cartridge::RAM_BANK_NUM_STOP;
use crate::cartridge::ROM_STOP;

verus! {

/// The 5-bit bank number that a written value selects: its low five
/// bits, with zero replaced by one.
pub open spec fn spec_mbc1_low_bank(val: u8) -> u16 {
    if val % 32 == 0 {
        1
    } else {
        (val % 32) as u16
    }
}

/// Whether a write to `addr` reaches a byte of RAM.
pub open spec fn spec_mbc1_dirty(cart: Cart, addr: u16) -> bool {
    &&& EXT_RAM_START <= addr <= EXT_RAM_STOP
    &&& cart.ext_ram_enable
    &&& cart.spec_ram_index(addr) < cart.ram_size
    &&& cart.spec_ram_index(addr) < cart.ram@.len()
}

pub open spec fn spec_mbc1_read(cart: Cart, addr: u16) -> u8 {
    if spec_mbc1_dirty(cart, addr) {
        cart.ram[cart.spec_ram_index(addr)]
    } else {
        0xFF
    }
}

pub open spec fn spec_mbc1_write(cart: Cart, addr: u16, val: u8) -> Cart {
    if addr <= RAM_ENABLE_STOP {
        Cart { ext_ram_enable: spec_enables_ram(val), ..cart }
    } else if addr <= ROM_BANK_NUM_STOP {
        Cart { rom_bank: ((cart.rom_bank / 32) % 4 * 32 + spec_mbc1_low_bank(val)) as u16, ..cart }
    } else if addr <= RAM_BANK_NUM_STOP {
        if cart.rom_mode {
            Cart { rom_bank: ((val % 4) * 32 + cart.rom_bank % 32) as u16, ..cart }
        } else {
            Cart { ram_bank: val % 4, ..cart }
        }
    } else if addr <= ROM_STOP {
        Cart { rom_mode: val % 2 == 0, ..cart }
    } else if spec_mbc1_dirty(cart, addr) {
        Cart { ram: spec_array_update(cart.ram, cart.spec_ram_index(addr), val), ..cart }
    } else {
        cart
    }
}

/// Reads a byte of external RAM; $FF while the RAM is switched off.
pub fn mbc1_read_byte(cart: &Cart, addr: u16) -> (val: u8)
    requires
        EXT_RAM_START <= addr <= EXT_RAM_STOP,
    ensures
        val == spec_mbc1_read(*cart, addr),
{
    let rel_addr = (addr - EXT_RAM_START) as usize;
    let ram_bank_addr = (cart.ram_bank as usize) * RAM_BANK_SIZE + rel_addr;
    if cart.ext_ram_enable && ram_bank_addr < cart.ram_size && ram_bank_addr < cart.ram.len() {
        cart.ram[ram_bank_addr]
    } else {
        0xFF
    }
}

/// Handles a write to the controller's registers or to external RAM.
pub fn mbc1_write_byte(cart: &mut Cart, addr: u16, val: u8) -> (dirty: bool)
    requires
        addr <= ROM_STOP || EXT_RAM_START <= addr <= EXT_RAM_STOP,
    ensures
        *final(cart) == spec_mbc1_write(*old(cart), addr, val),
        dirty == spec_mbc1_dirty(*old(cart), addr),
{
    if addr <= RAM_ENABLE_STOP {
        cart.ext_ram_enable = enables_ram(val);
        false
    } else if addr <= ROM_BANK_NUM_STOP {
        let low = val % 32;
        let bank_val: u16 = if low == 0 { 1 } else { low as u16 };
        cart.rom_bank = (cart.rom_bank / 32) % 4 * 32 + bank_val;
        false
    } else if addr <= RAM_BANK_NUM_STOP {
        let bits = val % 4;
        if cart.rom_mode {
            cart.rom_bank = (bits as u16) * 32 + cart.rom_bank % 32;
        } else {
            cart.ram_bank = bits;
        }
        false
    } else if addr <= ROM_STOP {
        cart.rom_mode = val % 2 == 0;
        false
    } else {
        let rel_addr = (addr - EXT_RAM_START) as usize;
        let ram_addr = (cart.ram_bank as usize) * RAM_BANK_SIZE + rel_addr;
        if cart.ext_ram_enable && ram_addr < cart.ram_size && ram_addr < cart.ram.len() {
            cart.ram[ram_addr] = val;
            true
        } else {
            false
        }
    }
}

/// A bank number whose low five bits are zero cannot be selected: the
/// low bank register never holds zero after a write to it, so the banks
/// $00, $20, $40 and $60 show as $01, $21, $41 and $61.
pub proof fn lemma_mbc1_bank_alias(cart: Cart, addr: u16, val: u8)
    requires
        0x2000 <= addr <= 0x3FFF,
    ensures
        spec_mbc1_write(cart, addr, val).rom_bank % 32 != 0,
        val % 32 == 0 ==> spec_mbc1_write(cart, addr, val).rom_bank == (cart.rom_bank / 32) % 4 * 32 + 1,
        val % 32 != 0 ==> spec_mbc1_write(cart, addr, val).rom_bank == (cart.rom_bank / 32) % 4 * 32 + val
            % 32,
{
}

/// Writing a value whose low five bits are zero to $2000-$3FFF, while
/// the upper bank bits are clear, selects bank 1: $4000 then shows the
/// byte at $4000 of the image.
pub proof fn lemma_mbc1_zero_selects_bank_one(cart: Cart, addr: u16, val: u8)
    requires
        0x2000 <= addr <= 0x3FFF,
        val % 32 == 0,
        cart.rom_bank < 32,
        cart.rom@.len() > 0x4000,
    ensures
        spec_mbc1_write(cart, addr, val).rom_bank == 1,
        spec_mbc1_write(cart, addr, val).rom == cart.rom,
        cart.mbc == crate::cartridge::MBC::MBC1 ==> cart.spec_write(addr, val).spec_read(0x4000)
            == cart.rom@[0x4000],
{
    reveal(Cart::spec_read);
    reveal(Cart::spec_write);
}

} // verus!
