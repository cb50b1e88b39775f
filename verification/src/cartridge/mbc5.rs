//! The fifth bank controller: 512 ROM banks through a 9-bit register and
//! 16 RAM banks. Bank 0 can be selected like any other.

use vstd::prelude::*;
use vstd::array::spec_array_update;
use crate::cartridge::Cart;
use crate::cartridge::enables_ram;
use crate::cartridge::spec_enables_ram;
use crate::cartridge::EXT_RAM_START;
use crate::cartridge::EXT_RAM_STOP;
use crate::cartridge::RAM_BANK_SIZE;
use crate::cartridge::RAM_ENABLE_STOP;
use crate::cartridge::ROM_BANK_NUM_STOP;
use crate::cartridge::RAM_BANK_NUM_STOP;
use crate::cartridge::ROM_STOP;

verus! {

/// Last address of the register that holds the low eight bank bits.
pub const ROM_BANK_LOW_STOP: u16 = 0x2FFF;

pub open spec fn spec_mbc5_dirty(cart: Cart, addr: u16) -> bool {
    &&& EXT_RAM_START <= addr <= EXT_RAM_STOP
    &&& cart.ext_ram_enable
    &&& cart.spec_ram_index(addr) < cart.ram_size
    &&& cart.spec_ram_index(addr) < cart.ram@.len()
}

pub open spec fn spec_mbc5_read(cart: Cart, addr: u16) -> u8 {
    if spec_mbc5_dirty(cart, addr) {
        cart.ram[cart.spec_ram_index(addr)]
    } else {
        0xFF
    }
}

pub open spec fn spec_mbc5_write(cart: Cart, addr: u16, val: u8) -> Cart {
    if addr <= RAM_ENABLE_STOP {
        Cart { ext_ram_enable: spec_enables_ram(val), ..cart }
    } else if addr <= ROM_BANK_LOW_STOP {
        Cart { rom_bank: ((cart.rom_bank / 256) % 2 * 256 + val) as u16, ..cart }
    } else if addr <= ROM_BANK_NUM_STOP {
        Cart { rom_bank: ((val % 2) * 256 + cart.rom_bank % 256) as u16, ..cart }
    } else if addr <= RAM_BANK_NUM_STOP {
        Cart { ram_bank: val % 16, ..cart }
    } else if addr <= ROM_STOP {
        cart
    } else if spec_mbc5_dirty(cart, addr) {
        Cart { ram: spec_array_update(cart.ram, cart.spec_ram_index(addr), val), ..cart }
    } else {
        cart
    }
}

pub fn mbc5_read_byte(cart: &Cart, addr: u16) -> (val: u8)
    requires
        EXT_RAM_START <= addr <= EXT_RAM_STOP,
    ensures
        val == spec_mbc5_read(*cart, addr),
{
    let rel_addr = (addr - EXT_RAM_START) as usize;
    let ram_addr = (cart.ram_bank as usize) * RAM_BANK_SIZE + rel_addr;
    if cart.ext_ram_enable && ram_addr < cart.ram_size && ram_addr < cart.ram.len() {
        cart.ram[ram_addr]
    } else {
        0xFF
    }
}

pub fn mbc5_write_byte(cart: &mut Cart, addr: u16, val: u8) -> (dirty: bool)
    requires
        addr <= ROM_STOP || EXT_RAM_START <= addr <= EXT_RAM_STOP,
    ensures
        *final(cart) == spec_mbc5_write(*old(cart), addr, val),
        dirty == spec_mbc5_dirty(*old(cart), addr),
{
    if addr <= RAM_ENABLE_STOP {
        cart.ext_ram_enable = enables_ram(val);
        false
    } else if addr <= ROM_BANK_LOW_STOP {
        cart.rom_bank = (cart.rom_bank / 256) % 2 * 256 + (val as u16);
        false
    } else if addr <= ROM_BANK_NUM_STOP {
        cart.rom_bank = ((val % 2) as u16) * 256 + cart.rom_bank % 256;
        false
    } else if addr <= RAM_BANK_NUM_STOP {
        cart.ram_bank = val % 16;
        false
    } else if addr <= ROM_STOP {
        false
    } else {
        let rel_addr = (addr - EXT_RAM_START) as usize;
        let ram_addr = (cart.ram_bank as usize) * RAM_BANK_SIZE + rel_addr;
        if cart.ext_ram_enable && ram_addr < cart.ram_size && ram_addr < cart.ram.len() {
            cart.ram[ram_addr] = val;
            true
        } else {
            false
        }
    }
}

} // verus!
