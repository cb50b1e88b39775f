//! The second bank controller: 16 ROM banks and 512 half-bytes of RAM
//! built into the controller itself.

use vstd::prelude::*;
use vstd::array::spec_array_update;
use crate::cartridge::Cart;
use crate::cartridge::enables_ram;
use crate::cartridge::spec_enables_ram;
use crate::cartridge::EXT_RAM_START;
use crate::cartridge::EXT_RAM_STOP;
use crate::cartridge::MBC2_RAM_SIZE;
use crate::cartridge::ROM_BANK_NUM_STOP;
use crate::cartridge::ROM_STOP;

verus! {

/// The half-byte that `addr` is mapped to: the 512 of them repeat
/// through the whole RAM area.
pub open spec fn spec_mbc2_index(addr: u16) -> int {
    (addr - 0xA000) % 512
}

/// Whether address line 8 is high, which tells a bank write from an
/// enable write.
pub open spec fn spec_mbc2_selects_bank(addr: u16) -> bool {
    (addr / 256) % 2 == 1
}

pub open spec fn spec_mbc2_dirty(cart: Cart, addr: u16) -> bool {
    &&& EXT_RAM_START <= addr <= EXT_RAM_STOP
    &&& cart.ext_ram_enable
}

/// A stored half-byte reads back with its upper four bits set.
pub open spec fn spec_mbc2_read(cart: Cart, addr: u16) -> u8 {
    if spec_mbc2_dirty(cart, addr) {
        (0xF0 + cart.ram[spec_mbc2_index(addr)] % 16) as u8
    } else {
        0xFF
    }
}

pub open spec fn spec_mbc2_write(cart: Cart, addr: u16, val: u8) -> Cart {
    if addr <= ROM_BANK_NUM_STOP {
        if spec_mbc2_selects_bank(addr) {
            Cart { rom_bank: if val % 16 == 0 { 1 } else { (val % 16) as u16 }, ..cart }
        } else {
            Cart { ext_ram_enable: spec_enables_ram(val), ..cart }
        }
    } else if addr <= ROM_STOP {
        cart
    } else if spec_mbc2_dirty(cart, addr) {
        Cart { ram: spec_array_update(cart.ram, spec_mbc2_index(addr), val % 16), ..cart }
    } else {
        cart
    }
}

pub fn mbc2_read_byte(cart: &Cart, addr: u16) -> (val: u8)
    requires
        EXT_RAM_START <= addr <= EXT_RAM_STOP,
    ensures
        val == spec_mbc2_read(*cart, addr),
{
    if cart.ext_ram_enable {
        let index = ((addr - EXT_RAM_START) as usize) % MBC2_RAM_SIZE;
        0xF0 + cart.ram[index] % 16
    } else {
        0xFF
    }
}

pub fn mbc2_write_byte(cart: &mut Cart, addr: u16, val: u8) -> (dirty: bool)
    requires
        addr <= ROM_STOP || EXT_RAM_START <= addr <= EXT_RAM_STOP,
    ensures
        *final(cart) == spec_mbc2_write(*old(cart), addr, val),
        dirty == spec_mbc2_dirty(*old(cart), addr),
{
    if addr <= ROM_BANK_NUM_STOP {
        if (addr / 256) % 2 == 1 {
            let bank = val % 16;
            cart.rom_bank = if bank == 0 { 1 } else { bank as u16 };
        } else {
            cart.ext_ram_enable = enables_ram(val);
        }
        false
    } else if addr <= ROM_STOP {
        false
    } else if cart.ext_ram_enable {
        let index = ((addr - EXT_RAM_START) as usize) % MBC2_RAM_SIZE;
        cart.ram[index] = val % 16;
        true
    } else {
        false
    }
}

/// A half-byte written while the RAM is on reads back as its low four
/// bits under four set bits, at the address written and at every mirror
/// of it.
pub proof fn lemma_mbc2_half_bytes(cart: Cart, addr: u16, mirror: u16, val: u8)
    requires
        EXT_RAM_START <= addr <= EXT_RAM_STOP,
        EXT_RAM_START <= mirror <= EXT_RAM_STOP,
        (mirror - addr) % 512 == 0,
        cart.ext_ram_enable,
    ensures
        spec_mbc2_read(spec_mbc2_write(cart, addr, val), mirror) == 0xF0 + val % 16,
{
}

} // verus!
