//! The third bank controller: 128 ROM banks, 4 RAM banks, and a clock
//! whose registers can be selected in place of a RAM bank. The clock does
//! not run here: while one of its registers is selected, the RAM area
//! reads as $FF and ignores writes.

use vstd::prelude::*;
use vstd::array::spec_array_update;
use crate::cartridge::Cart;
use crate::cartridge::enables_ram;
use crate::cartridge::spec_enables_ram;
use crate::cartridge::EXT_RAM_START;
use crate::cartridge::EXT_RAM_STOP;
use crate::cartridge::RAM_BANK_SIZE;
use crate::cartridge::RAM_ENABLE_STOP;
use crate::cartridge::ROM_BANK_NUM_STOP;
use crate::cartridge::RAM_BANK_NUM_STOP;
use crate::cartridge::ROM_STOP;

verus! {

/// Whether a value written to the bank register selects a RAM bank or
/// a clock register; any other value is ignored.
pub open spec fn spec_mbc3_selectable(val: u8) -> bool {
    val <= 0x03 || 0x08 <= val <= 0x0C
}

pub open spec fn spec_mbc3_dirty(cart: Cart, addr: u16) -> bool {
    &&& EXT_RAM_START <= addr <= EXT_RAM_STOP
    &&& cart.ext_ram_enable
    &&& cart.ram_bank <= 0x03
    &&& cart.spec_ram_index(addr) < cart.ram_size
}

pub open spec fn spec_mbc3_read(cart: Cart, addr: u16) -> u8 {
    if spec_mbc3_dirty(cart, addr) {
        cart.ram[cart.spec_ram_index(addr)]
    } else {
        0xFF
    }
}

pub open spec fn spec_mbc3_write(cart: Cart, addr: u16, val: u8) -> Cart {
    if addr <= RAM_ENABLE_STOP {
        Cart { ext_ram_enable: spec_enables_ram(val), ..cart }
    } else if addr <= ROM_BANK_NUM_STOP {
        Cart { rom_bank: if val % 128 == 0 { 1 } else { (val % 128) as u16 }, ..cart }
    } else if addr <= RAM_BANK_NUM_STOP {
        if spec_mbc3_selectable(val) {
            Cart { ram_bank: val, ..cart }
        } else {
            cart
        }
    } else if addr <= ROM_STOP {
        cart
    } else if spec_mbc3_dirty(cart, addr) {
        Cart { ram: spec_array_update(cart.ram, cart.spec_ram_index(addr), val), ..cart }
    } else {
        cart
    }
}

pub fn mbc3_read_byte(cart: &Cart, addr: u16) -> (val: u8)
    requires
        EXT_RAM_START <= addr <= EXT_RAM_STOP,
    ensures
        val == spec_mbc3_read(*cart, addr),
{
    let rel_addr = (addr - EXT_RAM_START) as usize;
    if cart.ext_ram_enable && cart.ram_bank <= 0x03 {
        let ram_addr = (cart.ram_bank as usize) * RAM_BANK_SIZE + rel_addr;
        if ram_addr < cart.ram_size {
            cart.ram[ram_addr]
        } else {
            0xFF
        }
    } else {
        0xFF
    }
}

pub fn mbc3_write_byte(cart: &mut Cart, addr: u16, val: u8) -> (dirty: bool)
    requires
        addr <= ROM_STOP || EXT_RAM_START <= addr <= EXT_RAM_STOP,
    ensures
        *final(cart) == spec_mbc3_write(*old(cart), addr, val),
        dirty == spec_mbc3_dirty(*old(cart), addr),
{
    if addr <= RAM_ENABLE_STOP {
        cart.ext_ram_enable = enables_ram(val);
        false
    } else if addr <= ROM_BANK_NUM_STOP {
        let bank = val % 128;
        cart.rom_bank = if bank == 0 { 1 } else { bank as u16 };
        false
    } else if addr <= RAM_BANK_NUM_STOP {
        if val <= 0x03 || (0x08 <= val && val <= 0x0C) {
            cart.ram_bank = val;
        }
        false
    } else if addr <= ROM_STOP {
        false
    } else {
        let rel_addr = (addr - EXT_RAM_START) as usize;
        if cart.ext_ram_enable && cart.ram_bank <= 0x03 {
            let ram_addr = (cart.ram_bank as usize) * RAM_BANK_SIZE + rel_addr;
            if ram_addr < cart.ram_size {
                cart.ram[ram_addr] = val;
                true
            } else {
                false
            }
        } else {
            false
        }
    }
}

} // verus!
