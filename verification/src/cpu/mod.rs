//! The processor: its registers and flags, its access to the bus, the
//! stack, and the operations that the instructions are made of.

use vstd::prelude::*;
use crate::bus::Bus;
use crate::cartridge::CartError;
use crate::cpu::alu::spec_add;
use crate::cpu::alu::spec_add_16;
use crate::cpu::alu::spec_and;
use crate::cpu::alu::spec_daa;
use crate::cpu::alu::spec_dec;
use crate::cpu::alu::spec_flag_of;
use crate::cpu::alu::spec_inc;
use crate::cpu::alu::spec_or;
use crate::cpu::alu::spec_pack_flags;
use crate::cpu::alu::spec_rot_left;
use crate::cpu::alu::spec_rot_right;
use crate::cpu::alu::spec_shift_left;
use crate::cpu::alu::spec_shift_right;
use crate::cpu::alu::spec_sub;
use crate::cpu::alu::spec_swap;
use crate::cpu::alu::spec_with_flag;
use crate::cpu::alu::spec_xor;
use crate::io::Buttons;
use crate::utils::get_bit;
use crate::utils::merge_bytes;
use crate::utils::spec_bit;
use crate::utils::spec_high_byte;
use crate::utils::spec_low_byte;
use crate::utils::spec_merge_bytes;
use crate::utils::spec_with_bit;
use crate::utils::write_bit;
use crate::utils::ModifyBytes;
use crate::utils::FRAME_SIZE;

pub mod alu;
pub mod opcodes;
pub mod timer;

verus! {

/// The four flags of the processor.
#[derive(Clone, Copy, PartialEq, Eq, Structural, Debug)]
pub enum Flags {
    Z,
    N,
    H,
    C,
}

/// The eight 8-bit registers.
#[derive(Clone, Copy, PartialEq, Eq, Structural, Debug)]
pub enum Regs {
    A,
    B,
    C,
    D,
    E,
    F,
    H,
    L,
}

/// The four register pairs. A pair is a view of its two registers, the
/// first being the upper byte.
#[derive(Clone, Copy, PartialEq, Eq, Structural, Debug)]
pub enum Regs16 {
    AF,
    BC,
    DE,
    HL,
}

/// Most instructions that one call of `step_frame` executes. A frame
/// lasts 17556 machine cycles and every instruction takes at least one.
pub const FRAME_STEP_LIMIT: u32 = 17556;

/// The word `n` after `word`, around the ends of the address space, for
/// an `n` of less than the size of the space.
pub open spec fn spec_next(word: u16, n: int) -> u16 {
    if word + n > 0xFFFF {
        (word + n - 0x10000) as u16
    } else if word + n < 0 {
        (word + n + 0x10000) as u16
    } else {
        (word + n) as u16
    }
}

pub struct Cpu {
    pub pc: u16,
    pub sp: u16,
    pub a: u8,
    pub b: u8,
    pub c: u8,
    pub d: u8,
    pub e: u8,
    pub f: u8,
    pub h: u8,
    pub l: u8,
    /// Interrupts are served.
    pub ime: bool,
    /// The processor waits for an interrupt.
    pub halted: bool,
    /// The next opcode is read without moving the program counter on.
    pub halt_bug_pending: bool,
    /// The instruction before this one asked for interrupts to be
    /// served from the next one on.
    pub ei_pending: bool,
    pub bus: Bus,
}

impl Cpu {
    /// The units on the bus are in order, and the low four bits of F
    /// are zero.
    pub open spec fn wf(self) -> bool {
        &&& self.bus.wf()
        &&& self.f % 16 == 0
    }

    // ---------------------------------------------------------------
    // Registers and flags
    // ---------------------------------------------------------------
    pub open spec fn spec_reg(self, r: Regs) -> u8 {
        match r {
            Regs::A => self.a,
            Regs::B => self.b,
            Regs::C => self.c,
            Regs::D => self.d,
            Regs::E => self.e,
            Regs::F => self.f,
            Regs::H => self.h,
            Regs::L => self.l,
        }
    }

    /// The processor with `val` in register `r`. F takes the upper four
    /// bits only.
    pub open spec fn spec_with_reg(self, r: Regs, val: u8) -> Cpu {
        match r {
            Regs::A => Cpu { a: val, ..self },
            Regs::B => Cpu { b: val, ..self },
            Regs::C => Cpu { c: val, ..self },
            Regs::D => Cpu { d: val, ..self },
            Regs::E => Cpu { e: val, ..self },
            Regs::F => Cpu { f: (val - val % 16) as u8, ..self },
            Regs::H => Cpu { h: val, ..self },
            Regs::L => Cpu { l: val, ..self },
        }
    }

    pub open spec fn spec_high_of(r: Regs16) -> Regs {
        match r {
            Regs16::AF => Regs::A,
            Regs16::BC => Regs::B,
            Regs16::DE => Regs::D,
            Regs16::HL => Regs::H,
        }
    }

    pub open spec fn spec_low_of(r: Regs16) -> Regs {
        match r {
            Regs16::AF => Regs::F,
            Regs16::BC => Regs::C,
            Regs16::DE => Regs::E,
            Regs16::HL => Regs::L,
        }
    }

    pub open spec fn spec_reg_16(self, r: Regs16) -> u16 {
        spec_merge_bytes(self.spec_reg(Cpu::spec_high_of(r)), self.spec_reg(Cpu::spec_low_of(r)))
    }

    pub open spec fn spec_with_reg_16(self, r: Regs16, val: u16) -> Cpu {
        self.spec_with_reg(Cpu::spec_high_of(r), spec_high_byte(val)).spec_with_reg(
            Cpu::spec_low_of(r),
            spec_low_byte(val),
        )
    }

    pub open spec fn spec_flag(self, f: Flags) -> bool {
        spec_flag_of(self.f, f)
    }

    pub open spec fn spec_write_flag(self, f: Flags, val: bool) -> Cpu {
        Cpu { f: spec_with_flag(self.f, f, val), ..self }
    }

    // ---------------------------------------------------------------
    // Memory and stack
    // ---------------------------------------------------------------
    pub open spec fn spec_read(self, addr: u16) -> u8 {
        self.bus.spec_read(addr)
    }

    pub open spec fn spec_write(self, addr: u16, val: u8) -> Cpu {
        Cpu { bus: self.bus.spec_write(addr, val), ..self }
    }

    /// The word stored at `addr`, low byte first.
    pub open spec fn spec_read_16(self, addr: u16) -> u16 {
        spec_merge_bytes(self.spec_read(spec_next(addr, 1)), self.spec_read(addr))
    }

    /// The processor after `val` was stored at `addr`, low byte first.
    pub open spec fn spec_write_16(self, addr: u16, val: u16) -> Cpu {
        self.spec_write(addr, spec_low_byte(val)).spec_write(spec_next(addr, 1), spec_high_byte(val))
    }

    /// The processor with its program counter `n` bytes further.
    pub open spec fn spec_skip(self, n: int) -> Cpu {
        Cpu { pc: spec_next(self.pc, n), ..self }
    }

    /// The byte at the program counter.
    pub open spec fn spec_imm8(self) -> u8 {
        self.spec_read(self.pc)
    }

    /// The word at the program counter.
    pub open spec fn spec_imm16(self) -> u16 {
        self.spec_read_16(self.pc)
    }

    /// The processor after `val` was pushed: the lower byte is stored
    /// at the stack pointer and the upper byte below it, and the stack
    /// pointer moves down by two.
    pub open spec fn spec_push(self, val: u16) -> Cpu {
        Cpu {
            sp: spec_next(self.sp, -2),
            bus: self.bus.spec_write(spec_next(self.sp, -1), spec_high_byte(val)).spec_write(
                self.sp,
                spec_low_byte(val),
            ),
            ..self
        }
    }

    /// The word on top of the stack: its upper byte one above the stack
    /// pointer, its lower byte two above.
    pub open spec fn spec_top(self) -> u16 {
        spec_merge_bytes(self.spec_read(spec_next(self.sp, 1)), self.spec_read(spec_next(self.sp, 2)))
    }

    /// The processor after a word was popped: the stack pointer moves up
    /// by two, around the end of the address space if need be.
    pub open spec fn spec_pop(self) -> Cpu {
        Cpu { sp: spec_next(self.sp, 2), ..self }
    }

    // ---------------------------------------------------------------
    // Operations
    // ---------------------------------------------------------------
    pub open spec fn spec_add_a(self, val: u8, adc: bool) -> Cpu {
        let out = spec_add(self.a, val, adc && self.spec_flag(Flags::C));
        Cpu { a: out.value, f: out.flags, ..self }
    }

    pub open spec fn spec_sub_a(self, val: u8, sbc: bool) -> Cpu {
        let out = spec_sub(self.a, val, sbc && self.spec_flag(Flags::C));
        Cpu { a: out.value, f: out.flags, ..self }
    }

    pub open spec fn spec_and_a(self, val: u8) -> Cpu {
        Cpu { a: spec_and(self.a, val).value, f: spec_and(self.a, val).flags, ..self }
    }

    pub open spec fn spec_or_a(self, val: u8) -> Cpu {
        Cpu { a: spec_or(self.a, val).value, f: spec_or(self.a, val).flags, ..self }
    }

    pub open spec fn spec_xor_a(self, val: u8) -> Cpu {
        Cpu { a: spec_xor(self.a, val).value, f: spec_xor(self.a, val).flags, ..self }
    }

    pub open spec fn spec_cp_a(self, val: u8) -> Cpu {
        Cpu { f: spec_sub(self.a, val, false).flags, ..self }
    }

    pub open spec fn spec_inc_8(self, reg: Regs) -> Cpu {
        let out = spec_inc(self.spec_reg(reg), self.spec_flag(Flags::C));
        Cpu { f: out.flags, ..self.spec_with_reg(reg, out.value) }
    }

    pub open spec fn spec_dec_8(self, reg: Regs) -> Cpu {
        let out = spec_dec(self.spec_reg(reg), self.spec_flag(Flags::C));
        Cpu { f: out.flags, ..self.spec_with_reg(reg, out.value) }
    }

    pub open spec fn spec_inc_16(self, reg: Regs16) -> Cpu {
        self.spec_with_reg_16(reg, spec_next(self.spec_reg_16(reg), 1))
    }

    pub open spec fn spec_dec_16(self, reg: Regs16) -> Cpu {
        self.spec_with_reg_16(reg, spec_next(self.spec_reg_16(reg), -1))
    }

    pub open spec fn spec_add_nn(self, reg: Regs16, source: u16) -> Cpu {
        let out = spec_add_16(self.spec_reg_16(reg), source, self.spec_flag(Flags::Z));
        Cpu { f: out.flags, ..self.spec_with_reg_16(reg, out.value) }
    }

    pub open spec fn spec_daa_a(self) -> Cpu {
        let out = spec_daa(self.a, self.spec_flag(Flags::N), self.spec_flag(Flags::H), self.spec_flag(Flags::C));
        Cpu { a: out.value, f: out.flags, ..self }
    }

    pub open spec fn spec_test_bit(self, val: u8, digit: u8) -> Cpu {
        Cpu { f: spec_pack_flags(!spec_bit(val, digit), false, true, self.spec_flag(Flags::C)), ..self }
    }

    /// The state at power-on.
    pub open spec fn spec_is_reset(self) -> bool {
        &&& self.pc == 0x0100
        &&& self.sp == 0xFFFE
        &&& self.a == 0x01
        &&& self.f == 0xB0
        &&& self.b == 0x00
        &&& self.c == 0x13
        &&& self.d == 0x00
        &&& self.e == 0xD8
        &&& self.h == 0x01
        &&& self.l == 0x4D
        &&& !self.ime
        &&& !self.halted
        &&& !self.halt_bug_pending
        &&& !self.ei_pending
        &&& self.bus.spec_is_reset()
    }

    // ---------------------------------------------------------------
    // Executable code
    // ---------------------------------------------------------------
    /// A machine at power-on, without a cartridge.
    pub fn new() -> (cpu: Cpu)
        ensures
            cpu.spec_is_reset(),
            cpu.wf(),
    {
        let mut bus = Bus::new();
        bus.power_on();
        Cpu {
            sp: 0xFFFE,
            pc: 0x100,
            a: 0x01,
            b: 0x00,
            c: 0x13,
            d: 0x00,
            e: 0xD8,
            f: 0xB0,
            h: 0x01,
            l: 0x4D,
            ime: false,
            halted: false,
            halt_bug_pending: false,
            ei_pending: false,
            bus,
        }
    }

    /// Whether the machine is in order.
    pub fn is_wf(&self) -> (ok: bool)
        ensures
            ok == self.wf(),
    {
        self.bus.is_wf() && self.f % 16 == 0
    }

    /// Loads a cartridge image. An image that is refused leaves the
    /// machine as it was.
    pub fn load_game(&mut self, rom: &[u8]) -> (result: Result<(), CartError>)
        ensures
            rom@.len() < 0x150 <==> result == Err::<(), CartError>(CartError::RomTooSmall),
            rom@.len() >= 0x150 && crate::cartridge::spec_mbc_of(rom@[0x147]) is None <==> result == Err::<
                (),
                CartError,
            >(CartError::UnsupportedMBC),
            result is Err ==> *final(self) == *old(self),
            result is Ok ==> {
                &&& *final(self) == (Cpu { bus: final(self).bus, ..*old(self) })
                &&& final(self).bus == (Bus { cart: final(self).bus.cart, ..old(self).bus })
                &&& final(self).bus.cart.rom@ == rom@
                &&& Some(final(self).bus.cart.mbc) == crate::cartridge::spec_mbc_of(rom@[0x147])
                &&& final(self).bus.cart.ram_size == crate::cartridge::spec_ram_size_of(final(self).bus.cart.mbc)
                &&& final(self).bus.cart.spec_fresh()
            },
            result is Ok ==> forall|addr: u16|
                addr < 0x4000 && addr < rom@.len() ==> #[trigger] final(self).bus.spec_peek(addr) == rom@[addr as int],
    {
        self.bus.load_game(rom)
    }

    /// The frame buffer: one 2-bit shade for each pixel, line after line.
    pub fn framebuffer(&self) -> (pixels: &[u8; FRAME_SIZE])
        ensures
            *pixels == self.bus.ppu.map_buffer,
    {
        self.bus.framebuffer()
    }

    /// Records that a key went down or up.
    pub fn button_event(&mut self, btn: Buttons, pressed: bool)
        ensures
            *final(self) == (Cpu { bus: old(self).bus.spec_button_event(btn, pressed), ..*old(self) }),
    {
        self.bus.button_event(btn, pressed);
    }

    /// The cartridge's RAM, for the host to save.
    pub fn external_ram(&self) -> (ram: &[u8])
        ensures
            ram@ == self.bus.cart.ram@.subrange(0, self.bus.cart.spec_ram_len()),
    {
        self.bus.external_ram()
    }

    /// Reads the byte at the program counter and moves the counter on.
    pub fn fetch(&mut self) -> (val: u8)
        ensures
            val == old(self).spec_imm8(),
            *final(self) == old(self).spec_skip(1),
    {
        let pc = self.get_pc();
        let val = self.read_ram(pc);
        self.pc = pc.wrapping_add(1);
        val
    }

    /// Reads the word at the program counter and moves the counter on.
    pub fn fetch_16(&mut self) -> (val: u16)
        ensures
            val == old(self).spec_imm16(),
            *final(self) == old(self).spec_skip(2),
    {
        let low = self.fetch();
        let high = self.fetch();
        merge_bytes(high, low)
    }

    pub fn get_pc(&self) -> (pc: u16)
        ensures
            pc == self.pc,
    {
        self.pc
    }

    pub fn get_sp(&self) -> (sp: u16)
        ensures
            sp == self.sp,
    {
        self.sp
    }

    pub fn set_pc(&mut self, val: u16)
        ensures
            *final(self) == (Cpu { pc: val, ..*old(self) }),
    {
        self.pc = val;
    }

    pub fn set_sp(&mut self, val: u16)
        ensures
            *final(self) == (Cpu { sp: val, ..*old(self) }),
    {
        self.sp = val;
    }

    pub fn get_reg(&self, r: Regs) -> (val: u8)
        ensures
            val == self.spec_reg(r),
    {
        match r {
            Regs::A => self.a,
            Regs::B => self.b,
            Regs::C => self.c,
            Regs::D => self.d,
            Regs::E => self.e,
            Regs::F => self.f,
            Regs::H => self.h,
            Regs::L => self.l,
        }
    }

    pub fn set_reg(&mut self, r: Regs, val: u8)
        ensures
            *final(self) == old(self).spec_with_reg(r, val),
    {
        match r {
            Regs::A => { self.a = val },
            Regs::B => { self.b = val },
            Regs::C => { self.c = val },
            Regs::D => { self.d = val },
            Regs::E => { self.e = val },
            Regs::F => { self.f = val - val % 16 },
            Regs::H => { self.h = val },
            Regs::L => { self.l = val },
        }
    }

    pub fn get_reg_16(&self, r: Regs16) -> (val: u16)
        ensures
            val == self.spec_reg_16(r),
    {
        match r {
            Regs16::AF => {
                let high = self.a;
                let low = self.f;
                merge_bytes(high, low)
            },
            Regs16::BC => {
                let high = self.b;
                let low = self.c;
                merge_bytes(high, low)
            },
            Regs16::DE => {
                let high = self.d;
                let low = self.e;
                merge_bytes(high, low)
            },
            Regs16::HL => {
                let high = self.h;
                let low = self.l;
                merge_bytes(high, low)
            },
        }
    }

    pub fn set_reg_16(&mut self, r: Regs16, val: u16)
        ensures
            *final(self) == old(self).spec_with_reg_16(r, val),
    {
        let high = val.get_high_byte();
        let low = val.get_low_byte();
        match r {
            Regs16::AF => {
                self.set_reg(Regs::A, high);
                self.set_reg(Regs::F, low);
            },
            Regs16::BC => {
                self.set_reg(Regs::B, high);
                self.set_reg(Regs::C, low);
            },
            Regs16::DE => {
                self.set_reg(Regs::D, high);
                self.set_reg(Regs::E, low);
            },
            Regs16::HL => {
                self.set_reg(Regs::H, high);
                self.set_reg(Regs::L, low);
            },
        }
    }

    pub fn get_flag(&self, f: Flags) -> (set: bool)
        ensures
            set == self.spec_flag(f),
    {
        alu::flag_of(self.f, f)
    }

    pub fn set_flag(&mut self, f: Flags)
        ensures
            *final(self) == old(self).spec_write_flag(f, true),
    {
        self.f = alu::with_flag(self.f, f, true);
    }

    pub fn clear_flag(&mut self, f: Flags)
        ensures
            *final(self) == old(self).spec_write_flag(f, false),
    {
        self.f = alu::with_flag(self.f, f, false);
    }

    pub fn write_flag(&mut self, f: Flags, val: bool)
        ensures
            *final(self) == old(self).spec_write_flag(f, val),
    {
        if val {
            self.set_flag(f);
        } else {
            self.clear_flag(f);
        }
    }

    pub fn read_ram(&self, addr: u16) -> (val: u8)
        ensures
            val == self.spec_read(addr),
    {
        self.bus.read_ram(addr)
    }

    pub fn write_ram(&mut self, addr: u16, val: u8)
        requires
            old(self).wf(),
        ensures
            *final(self) == old(self).spec_write(addr, val),
            final(self).wf(),
    {
        self.bus.write_ram(addr, val);
    }

    /// Reads the word at `addr`, low byte first.
    pub fn read_ram_16(&self, addr: u16) -> (val: u16)
        ensures
            val == self.spec_read_16(addr),
    {
        let low = self.read_ram(addr);
        let high = self.read_ram(addr.wrapping_add(1));
        merge_bytes(high, low)
    }

    /// Stores a word at `addr`, low byte first.
    pub fn write_ram_16(&mut self, addr: u16, val: u16)
        requires
            old(self).wf(),
        ensures
            *final(self) == old(self).spec_write_16(addr, val),
            final(self).wf(),
    {
        self.write_ram(addr, val.get_low_byte());
        self.write_ram(addr.wrapping_add(1), val.get_high_byte());
    }

    /// Pushes a word onto the stack.
    pub fn push(&mut self, val: u16)
        requires
            old(self).wf(),
        ensures
            *final(self) == old(self).spec_push(val),
            final(self).wf(),
    {
        let sp = self.get_sp();
        let high = val.get_high_byte();
        let low = val.get_low_byte();
        self.write_ram(sp.wrapping_sub(1), high);
        self.write_ram(sp, low);
        self.set_sp(sp.wrapping_sub(2));
    }

    /// Pops a word off the stack.
    pub fn pop(&mut self) -> (val: u16)
        ensures
            val == old(self).spec_top(),
            *final(self) == old(self).spec_pop(),
    {
        let sp = self.get_sp();
        let high = self.read_ram(sp.wrapping_add(1));
        let low = self.read_ram(sp.wrapping_add(2));
        self.set_sp(sp.wrapping_add(2));
        merge_bytes(high, low)
    }

    /// ADD and ADC: adds `val`, and C if `adc` holds, to A.
    pub fn add_a_d8(&mut self, val: u8, adc: bool)
        ensures
            *final(self) == old(self).spec_add_a(val, adc),
    {
        let carry = adc && self.get_flag(Flags::C);
        let out = alu::add_u8(self.a, val, carry);
        self.a = out.value;
        self.f = out.flags;
    }

    /// ADD to a register pair.
    pub fn add_nn_d16(&mut self, reg: Regs16, source: u16)
        ensures
            *final(self) == old(self).spec_add_nn(reg, source),
    {
        let target = self.get_reg_16(reg);
        let out = alu::add_u16(target, source, self.get_flag(Flags::Z));
        self.set_reg_16(reg, out.value);
        self.f = out.flags;
    }

    /// AND with A.
    pub fn and_a_d8(&mut self, val: u8)
        ensures
            *final(self) == old(self).spec_and_a(val),
    {
        let out = alu::and_u8(self.a, val);
        self.a = out.value;
        self.f = out.flags;
    }

    /// CP: the flags of a subtraction from A, which is kept.
    pub fn cp_a_d8(&mut self, val: u8)
        ensures
            *final(self) == old(self).spec_cp_a(val),
    {
        let out = alu::sub_u8(self.a, val, false);
        self.f = out.flags;
    }

    /// DAA: decimal adjustment of A.
    pub fn daa(&mut self)
        ensures
            *final(self) == old(self).spec_daa_a(),
    {
        let out = alu::daa(self.a, self.get_flag(Flags::N), self.get_flag(Flags::H), self.get_flag(Flags::C));
        self.a = out.value;
        self.f = out.flags;
    }

    /// DEC of a register.
    pub fn dec_8(&mut self, reg: Regs)
        ensures
            *final(self) == old(self).spec_dec_8(reg),
    {
        let val = self.get_reg(reg);
        let out = alu::dec_u8(val, self.get_flag(Flags::C));
        self.set_reg(reg, out.value);
        self.f = out.flags;
    }

    /// DEC of a register pair; no flag changes.
    pub fn dec_16(&mut self, reg: Regs16)
        ensures
            *final(self) == old(self).spec_dec_16(reg),
    {
        let val = self.get_reg_16(reg);
        let result = val.wrapping_sub(1);
        self.set_reg_16(reg, result);
    }

    /// INC of a register.
    pub fn inc_8(&mut self, reg: Regs)
        ensures
            *final(self) == old(self).spec_inc_8(reg),
    {
        let val = self.get_reg(reg);
        let out = alu::inc_u8(val, self.get_flag(Flags::C));
        self.set_reg(reg, out.value);
        self.f = out.flags;
    }

    /// INC of a register pair; no flag changes.
    pub fn inc_16(&mut self, reg: Regs16)
        ensures
            *final(self) == old(self).spec_inc_16(reg),
    {
        let val = self.get_reg_16(reg);
        let result = val.wrapping_add(1);
        self.set_reg_16(reg, result);
    }

    /// LD of a byte into a register.
    pub fn ld_n_d8(&mut self, reg: Regs, byte: u8)
        ensures
            *final(self) == old(self).spec_with_reg(reg, byte),
    {
        self.set_reg(reg, byte);
    }

    /// LD of a word into a register pair.
    pub fn ld_nn_d16(&mut self, reg: Regs16, val: u16)
        ensures
            *final(self) == old(self).spec_with_reg_16(reg, val),
    {
        self.set_reg_16(reg, val);
    }

    /// OR with A.
    pub fn or_a_d8(&mut self, val: u8)
        ensures
            *final(self) == old(self).spec_or_a(val),
    {
        let out = alu::or_u8(self.a, val);
        self.a = out.value;
        self.f = out.flags;
    }

    /// Rotates a register to the left.
    pub fn rot_left_reg(&mut self, reg: Regs, carry: bool)
        ensures
            *final(self) == (Cpu {
                f: spec_rot_left(old(self).spec_reg(reg), carry, old(self).spec_flag(Flags::C)).flags,
                ..old(self).spec_with_reg(
                    reg,
                    spec_rot_left(old(self).spec_reg(reg), carry, old(self).spec_flag(Flags::C)).value,
                )
            }),
    {
        let val = self.get_reg(reg);
        let c = self.get_flag(Flags::C);
        self.set_reg(reg, alu::rot_left(val, carry, c).value);
        self.f = alu::rot_left(val, carry, c).flags;
    }

    /// Rotates a byte to the left and sets the flags.
    pub fn rot_left(&mut self, byte: u8, carry: bool) -> (rot: u8)
        ensures
            rot == spec_rot_left(byte, carry, old(self).spec_flag(Flags::C)).value,
            *final(self) == (Cpu {
                f: spec_rot_left(byte, carry, old(self).spec_flag(Flags::C)).flags,
                ..*old(self)
            }),
    {
        let out = alu::rot_left(byte, carry, self.get_flag(Flags::C));
        self.f = out.flags;
        out.value
    }

    /// Rotates a register to the right.
    pub fn rot_right_reg(&mut self, reg: Regs, carry: bool)
        ensures
            *final(self) == (Cpu {
                f: spec_rot_right(old(self).spec_reg(reg), carry, old(self).spec_flag(Flags::C)).flags,
                ..old(self).spec_with_reg(
                    reg,
                    spec_rot_right(old(self).spec_reg(reg), carry, old(self).spec_flag(Flags::C)).value,
                )
            }),
    {
        let val = self.get_reg(reg);
        let c = self.get_flag(Flags::C);
        self.set_reg(reg, alu::rot_right(val, carry, c).value);
        self.f = alu::rot_right(val, carry, c).flags;
    }

    /// Rotates a byte to the right and sets the flags.
    pub fn rot_right(&mut self, byte: u8, carry: bool) -> (rot: u8)
        ensures
            rot == spec_rot_right(byte, carry, old(self).spec_flag(Flags::C)).value,
            *final(self) == (Cpu {
                f: spec_rot_right(byte, carry, old(self).spec_flag(Flags::C)).flags,
                ..*old(self)
            }),
    {
        let out = alu::rot_right(byte, carry, self.get_flag(Flags::C));
        self.f = out.flags;
        out.value
    }

    /// Shifts a register to the left.
    pub fn shift_left_reg(&mut self, reg: Regs)
        ensures
            *final(self) == (Cpu {
                f: spec_shift_left(old(self).spec_reg(reg)).flags,
                ..old(self).spec_with_reg(reg, spec_shift_left(old(self).spec_reg(reg)).value)
            }),
    {
        let byte = self.get_reg(reg);
        self.set_reg(reg, alu::shift_left(byte).value);
        self.f = alu::shift_left(byte).flags;
    }

    /// Shifts a byte to the left and sets the flags.
    pub fn shift_left(&mut self, byte: u8) -> (shifted: u8)
        ensures
            shifted == spec_shift_left(byte).value,
            *final(self) == (Cpu { f: spec_shift_left(byte).flags, ..*old(self) }),
    {
        let out = alu::shift_left(byte);
        self.f = out.flags;
        out.value
    }

    /// Shifts a register to the right.
    pub fn shift_right_reg(&mut self, reg: Regs, arith: bool)
        ensures
            *final(self) == (Cpu {
                f: spec_shift_right(old(self).spec_reg(reg), arith).flags,
                ..old(self).spec_with_reg(reg, spec_shift_right(old(self).spec_reg(reg), arith).value)
            }),
    {
        let byte = self.get_reg(reg);
        self.set_reg(reg, alu::shift_right(byte, arith).value);
        self.f = alu::shift_right(byte, arith).flags;
    }

    /// Shifts a byte to the right and sets the flags.
    pub fn shift_right(&mut self, byte: u8, arith: bool) -> (shifted: u8)
        ensures
            shifted == spec_shift_right(byte, arith).value,
            *final(self) == (Cpu { f: spec_shift_right(byte, arith).flags, ..*old(self) }),
    {
        let out = alu::shift_right(byte, arith);
        self.f = out.flags;
        out.value
    }

    /// SUB and SBC: takes `val`, and C if `sbc` holds, off A.
    pub fn sub_a_d8(&mut self, val: u8, sbc: bool)
        ensures
            *final(self) == old(self).spec_sub_a(val, sbc),
    {
        let carry = sbc && self.get_flag(Flags::C);
        let out = alu::sub_u8(self.a, val, carry);
        self.a = out.value;
        self.f = out.flags;
    }

    /// Exchanges the halves of a register.
    pub fn swap_bits_reg(&mut self, reg: Regs)
        ensures
            *final(self) == (Cpu {
                f: spec_swap(old(self).spec_reg(reg)).flags,
                ..old(self).spec_with_reg(reg, spec_swap(old(self).spec_reg(reg)).value)
            }),
    {
        let byte = self.get_reg(reg);
        self.set_reg(reg, alu::swap(byte).value);
        self.f = alu::swap(byte).flags;
    }

    /// Exchanges the halves of a byte and sets the flags.
    pub fn swap_bits(&mut self, val: u8) -> (swapped: u8)
        ensures
            swapped == spec_swap(val).value,
            *final(self) == (Cpu { f: spec_swap(val).flags, ..*old(self) }),
    {
        let out = alu::swap(val);
        self.f = out.flags;
        out.value
    }

    /// BIT on a register.
    pub fn test_bit_reg(&mut self, reg: Regs, digit: u8)
        requires
            digit < 8,
        ensures
            *final(self) == old(self).spec_test_bit(old(self).spec_reg(reg), digit),
    {
        let byte = self.get_reg(reg);
        self.test_bit(byte, digit);
    }

    /// BIT: Z is set if the bit is clear, N is cleared, H set, C kept.
    pub fn test_bit(&mut self, val: u8, digit: u8)
        requires
            digit < 8,
        ensures
            *final(self) == old(self).spec_test_bit(val, digit),
    {
        let bit = get_bit(val, digit);
        self.f = alu::pack_flags(!bit, false, true, self.get_flag(Flags::C));
    }

    /// SET and RES on a register.
    pub fn write_bit_n(&mut self, reg: Regs, digit: u8, set: bool)
        requires
            digit < 8,
        ensures
            *final(self) == old(self).spec_with_reg(reg, spec_with_bit(old(self).spec_reg(reg), digit, set)),
    {
        let r = self.get_reg(reg);
        self.set_reg(reg, write_bit(r, digit, set));
    }

    /// SET and RES on a byte of memory.
    pub fn write_bit_ram(&mut self, addr: u16, digit: u8, set: bool)
        requires
            old(self).wf(),
            digit < 8,
        ensures
            *final(self) == old(self).spec_write(addr, spec_with_bit(old(self).spec_read(addr), digit, set)),
            final(self).wf(),
    {
        let val = self.read_ram(addr);
        self.write_ram(addr, write_bit(val, digit, set));
    }

    /// XOR with A.
    pub fn xor_a_d8(&mut self, val: u8)
        ensures
            *final(self) == old(self).spec_xor_a(val),
    {
        let out = alu::xor_u8(self.a, val);
        self.a = out.value;
        self.f = out.flags;
    }
}

/// Splitting a merged pair gives the pair back: for BC, DE and HL both
/// bytes as they were written, for AF the upper byte as written and the
/// lower with its low four bits cleared.
pub proof fn lemma_pair_round_trip(cpu: Cpu, r: Regs16, high: u8, low: u8)
    ensures
        cpu.spec_with_reg_16(r, spec_merge_bytes(high, low)).spec_reg(Cpu::spec_high_of(r)) == high,
        cpu.spec_with_reg_16(r, spec_merge_bytes(high, low)).spec_reg(Cpu::spec_low_of(r)) == (if r
            == Regs16::AF {
            (low - low % 16) as u8
        } else {
            low
        }),
        cpu.spec_with_reg_16(r, spec_merge_bytes(high, low)).spec_reg_16(r) == spec_merge_bytes(
            high,
            if r == Regs16::AF {
                (low - low % 16) as u8
            } else {
                low
            },
        ),
        (low - low % 16) as u8 == low & 0xF0,
{
    crate::utils::lemma_low_nibble(low);
}

/// A word that is pushed and then popped comes back unchanged, and the
/// stack pointer returns to where it was, whenever the byte at the stack
/// pointer and the byte below it are RAM that holds what is written to it.
pub proof fn lemma_push_pop(cpu: Cpu, val: u16)
    requires
        crate::bus::spec_holds_writes(cpu.bus, cpu.sp),
        crate::bus::spec_holds_writes(cpu.bus, spec_next(cpu.sp, -1)),
    ensures
        cpu.spec_push(val).spec_top() == val,
        cpu.spec_push(val).spec_pop().sp == cpu.sp,
        cpu.spec_push(val).sp == spec_next(cpu.sp, -2),
{
    let below = spec_next(cpu.sp, -1);
    let mid = cpu.bus.spec_write(below, spec_high_byte(val));
    crate::bus::lemma_ram_write_read(cpu.bus, below, spec_high_byte(val), cpu.sp);
    crate::bus::lemma_ram_write_read(mid, cpu.sp, spec_low_byte(val), below);
}

} // verus!
