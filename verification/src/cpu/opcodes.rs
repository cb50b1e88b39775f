//! The instruction set: what each opcode does to the machine and how
//! many machine cycles it takes.
//!
//! An opcode is read as three fields: `x` in bits 7-6, `y` in bits 5-3 and
//! `z` in bits 2-0; `p` is the upper two bits of `y` and `q` its lowest.
//! Operands are numbered as in the opcodes: the 8-bit operands B, C, D, E,
//! H, L, the byte at HL, A; the pairs BC, DE, HL, SP (or AF, for the
//! stack); the conditions NZ, Z, NC, C.
//!
//! The eleven opcodes that the processor does not define ($D3, $DB, $DD,
//! $E3, $E4, $EB, $EC, $ED, $F4, $FC, $FD) freeze it: each takes one
//! machine cycle and leaves the program counter on itself.

use vstd::prelude::*;
use crate::bus::Bus;
use crate::cpu::alu;
use crate::cpu::alu::spec_add_signed;
use crate::cpu::alu::spec_alu;
use crate::cpu::alu::spec_dec;
use crate::cpu::alu::spec_inc;
use crate::cpu::alu::spec_pack_flags;
use crate::cpu::alu::spec_shift;
use crate::cpu::alu::spec_signed;
use crate::cpu::alu::spec_with_flag;
use crate::cpu::spec_next;
use crate::cpu::Cpu;
use crate::cpu::Flags;
use crate::cpu::Regs;
use crate::cpu::Regs16;
use crate::cpu::FRAME_STEP_LIMIT;
use crate::interrupt::spec_vector;
use crate::interrupt::SOURCES;
use crate::utils::get_bit;
use crate::utils::spec_bit;
use crate::utils::spec_with_bit;
use crate::utils::write_bit;

verus! {

/// Machine cycles of each opcode; for a conditional jump, call or return
/// those of the case that the condition fails. The entry of the prefix
/// $CB is not used: a prefixed opcode has its own count.
pub const OP_CYCLES: [u8; 256] = [
    1, 3, 2, 2, 1, 1, 2, 1, 5, 2, 2, 2, 1, 1, 2, 1,
    1, 3, 2, 2, 1, 1, 2, 1, 3, 2, 2, 2, 1, 1, 2, 1,
    2, 3, 2, 2, 1, 1, 2, 1, 2, 2, 2, 2, 1, 1, 2, 1,
    2, 3, 2, 2, 3, 3, 3, 1, 2, 2, 2, 2, 1, 1, 2, 1,
    1, 1, 1, 1, 1, 1, 2, 1, 1, 1, 1, 1, 1, 1, 2, 1,
    1, 1, 1, 1, 1, 1, 2, 1, 1, 1, 1, 1, 1, 1, 2, 1,
    1, 1, 1, 1, 1, 1, 2, 1, 1, 1, 1, 1, 1, 1, 2, 1,
    2, 2, 2, 2, 2, 2, 1, 2, 1, 1, 1, 1, 1, 1, 2, 1,
    1, 1, 1, 1, 1, 1, 2, 1, 1, 1, 1, 1, 1, 1, 2, 1,
    1, 1, 1, 1, 1, 1, 2, 1, 1, 1, 1, 1, 1, 1, 2, 1,
    1, 1, 1, 1, 1, 1, 2, 1, 1, 1, 1, 1, 1, 1, 2, 1,
    1, 1, 1, 1, 1, 1, 2, 1, 1, 1, 1, 1, 1, 1, 2, 1,
    2, 3, 3, 4, 3, 4, 2, 4, 2, 4, 3, 2, 3, 6, 2, 4,
    2, 3, 3, 1, 3, 4, 2, 4, 2, 4, 3, 1, 3, 1, 2, 4,
    3, 3, 2, 1, 1, 4, 2, 4, 4, 1, 4, 1, 1, 1, 2, 4,
    3, 3, 2, 1, 1, 4, 2, 4, 3, 2, 4, 1, 1, 1, 2, 4,
];

/// Machine cycles of servicing an interrupt.
pub const INTERRUPT_CYCLES: u8 = 5;

/// Opcode of HALT.
pub const OP_HALT: u8 = 0x76;

/// Opcode of DI.
pub const OP_DI: u8 = 0xF3;

/// Opcode of the prefix.
pub const OP_PREFIX: u8 = 0xCB;

/// Machine cycles of a prefixed opcode: two on a register; on the byte
/// at HL three for BIT, which only reads, and four for the others.
pub open spec fn spec_cb_cycles(op: u8) -> u8 {
    if op % 8 != 6 {
        2
    } else if op / 64 == 1 {
        3
    } else {
        4
    }
}

impl Cpu {
    // ---------------------------------------------------------------
    // Operands
    // ---------------------------------------------------------------
    pub open spec fn spec_r8(self, idx: u8) -> u8 {
        if idx == 0 {
            self.b
        } else if idx == 1 {
            self.c
        } else if idx == 2 {
            self.d
        } else if idx == 3 {
            self.e
        } else if idx == 4 {
            self.h
        } else if idx == 5 {
            self.l
        } else if idx == 6 {
            self.spec_read(self.spec_reg_16(Regs16::HL))
        } else {
            self.a
        }
    }

    pub open spec fn spec_with_r8(self, idx: u8, val: u8) -> Cpu {
        if idx == 0 {
            Cpu { b: val, ..self }
        } else if idx == 1 {
            Cpu { c: val, ..self }
        } else if idx == 2 {
            Cpu { d: val, ..self }
        } else if idx == 3 {
            Cpu { e: val, ..self }
        } else if idx == 4 {
            Cpu { h: val, ..self }
        } else if idx == 5 {
            Cpu { l: val, ..self }
        } else if idx == 6 {
            self.spec_write(self.spec_reg_16(Regs16::HL), val)
        } else {
            Cpu { a: val, ..self }
        }
    }

    pub open spec fn spec_rp(self, p: u8) -> u16 {
        if p == 0 {
            self.spec_reg_16(Regs16::BC)
        } else if p == 1 {
            self.spec_reg_16(Regs16::DE)
        } else if p == 2 {
            self.spec_reg_16(Regs16::HL)
        } else {
            self.sp
        }
    }

    pub open spec fn spec_with_rp(self, p: u8, val: u16) -> Cpu {
        if p == 0 {
            self.spec_with_reg_16(Regs16::BC, val)
        } else if p == 1 {
            self.spec_with_reg_16(Regs16::DE, val)
        } else if p == 2 {
            self.spec_with_reg_16(Regs16::HL, val)
        } else {
            Cpu { sp: val, ..self }
        }
    }

    pub open spec fn spec_rp2(self, p: u8) -> u16 {
        if p == 3 {
            self.spec_reg_16(Regs16::AF)
        } else {
            self.spec_rp(p)
        }
    }

    pub open spec fn spec_with_rp2(self, p: u8, val: u16) -> Cpu {
        if p == 3 {
            self.spec_with_reg_16(Regs16::AF, val)
        } else {
            self.spec_with_rp(p, val)
        }
    }

    pub open spec fn spec_cond(self, cc: u8) -> bool {
        if cc == 0 {
            !self.spec_flag(Flags::Z)
        } else if cc == 1 {
            self.spec_flag(Flags::Z)
        } else if cc == 2 {
            !self.spec_flag(Flags::C)
        } else {
            self.spec_flag(Flags::C)
        }
    }

    // ---------------------------------------------------------------
    // Instructions, from the state after the opcode was read
    // ---------------------------------------------------------------
    /// JR: skips the offset byte and, if taken, moves the program
    /// counter by the signed offset.
    pub open spec fn spec_jump_rel(self, taken: bool) -> Cpu {
        if taken {
            Cpu { pc: spec_next(self.pc, 1 + spec_signed(self.spec_imm8())), ..self }
        } else {
            self.spec_skip(1)
        }
    }

    /// JP: skips the address and, if taken, goes to it.
    pub open spec fn spec_jump(self, taken: bool) -> Cpu {
        if taken {
            Cpu { pc: self.spec_imm16(), ..self }
        } else {
            self.spec_skip(2)
        }
    }

    /// CALL: skips the address and, if taken, pushes the address of
    /// the next instruction and goes to it.
    pub open spec fn spec_call(self, taken: bool) -> Cpu {
        if taken {
            Cpu { pc: self.spec_imm16(), ..self.spec_push(spec_next(self.pc, 2)) }
        } else {
            self.spec_skip(2)
        }
    }

    /// RET: if taken, pops the program counter.
    pub open spec fn spec_ret(self, taken: bool) -> Cpu {
        if taken {
            Cpu { pc: self.spec_top(), ..self.spec_pop() }
        } else {
            self
        }
    }

    /// RST: pushes the program counter and goes to a fixed address.
    pub open spec fn spec_rst(self, target: u16) -> Cpu {
        Cpu { pc: target, ..self.spec_push(self.pc) }
    }

    /// One of the eight operations of the accumulator.
    pub open spec fn spec_alu_a(self, kind: u8, val: u8) -> Cpu {
        let out = spec_alu(kind, self.a, val, self.spec_flag(Flags::C));
        Cpu { a: out.value, f: out.flags, ..self }
    }

    /// One of the eight rotations and shifts, on an 8-bit operand.
    pub open spec fn spec_shift_r8(self, kind: u8, idx: u8) -> Cpu {
        let out = spec_shift(kind, self.spec_r8(idx), self.spec_flag(Flags::C));
        Cpu { f: out.flags, ..self.spec_with_r8(idx, out.value) }
    }

    /// RLCA, RRCA, RLA, RRA: the rotation of A, with Z cleared.
    pub open spec fn spec_rot_a(self, kind: u8) -> Cpu {
        let out = spec_shift(kind, self.a, self.spec_flag(Flags::C));
        Cpu { a: out.value, f: spec_with_flag(out.flags, Flags::Z, false), ..self }
    }

    pub open spec fn spec_inc_r8(self, idx: u8) -> Cpu {
        let out = spec_inc(self.spec_r8(idx), self.spec_flag(Flags::C));
        Cpu { f: out.flags, ..self.spec_with_r8(idx, out.value) }
    }

    pub open spec fn spec_dec_r8(self, idx: u8) -> Cpu {
        let out = spec_dec(self.spec_r8(idx), self.spec_flag(Flags::C));
        Cpu { f: out.flags, ..self.spec_with_r8(idx, out.value) }
    }

    /// The eight opcodes $07, $0F, ... $3F: the four rotations of A, DAA,
    /// CPL (A inverted; N and H set), SCF (C set; N and H cleared) and
    /// CCF (C inverted; N and H cleared).
    #[verifier::opaque]
    pub open spec fn spec_misc(self, y: u8) -> Cpu {
        let z = self.spec_flag(Flags::Z);
        let c = self.spec_flag(Flags::C);
        if y < 4 {
            self.spec_rot_a(y)
        } else if y == 4 {
            self.spec_daa_a()
        } else if y == 5 {
            Cpu { a: (255 - self.a) as u8, f: spec_pack_flags(z, true, true, c), ..self }
        } else if y == 6 {
            Cpu { f: spec_pack_flags(z, false, false, true), ..self }
        } else {
            Cpu { f: spec_pack_flags(z, false, false, !c), ..self }
        }
    }

    /// The address that the loads through a register pair use: BC, DE,
    /// and HL twice.
    pub open spec fn spec_indirect(self, p: u8) -> u16 {
        if p == 0 {
            self.spec_reg_16(Regs16::BC)
        } else if p == 1 {
            self.spec_reg_16(Regs16::DE)
        } else {
            self.spec_reg_16(Regs16::HL)
        }
    }

    /// HL moved on after a load through it: up for `p` 2, down for `p` 3.
    pub open spec fn spec_after_indirect(self, p: u8) -> Cpu {
        if p == 2 {
            self.spec_inc_16(Regs16::HL)
        } else if p == 3 {
            self.spec_dec_16(Regs16::HL)
        } else {
            self
        }
    }

    /// $00 NOP, $08 LD (nn),SP, $10 STOP, which skips the byte after
    /// it, $18 JR, and the four conditional JR.
    #[verifier::opaque]
    pub open spec fn spec_x0_z0(self, y: u8) -> Cpu {
        if y == 0 {
            self
        } else if y == 1 {
            self.spec_skip(2).spec_write_16(self.spec_imm16(), self.sp)
        } else if y == 2 {
            self.spec_skip(1)
        } else if y == 3 {
            self.spec_jump_rel(true)
        } else {
            self.spec_jump_rel(self.spec_cond((y - 4) as u8))
        }
    }

    /// LD rp,nn and ADD HL,rp.
    #[verifier::opaque]
    pub open spec fn spec_x0_z1(self, p: u8, q: u8) -> Cpu {
        if q == 0 {
            self.spec_skip(2).spec_with_rp(p, self.spec_imm16())
        } else {
            self.spec_add_nn(Regs16::HL, self.spec_rp(p))
        }
    }

    /// The loads of A to and from the byte at BC, DE, HL+ and HL-.
    #[verifier::opaque]
    pub open spec fn spec_x0_z2(self, p: u8, q: u8) -> Cpu {
        if q == 0 {
            self.spec_write(self.spec_indirect(p), self.a).spec_after_indirect(p)
        } else {
            (Cpu { a: self.spec_read(self.spec_indirect(p)), ..self }).spec_after_indirect(p)
        }
    }

    /// INC rp and DEC rp; no flag changes.
    #[verifier::opaque]
    pub open spec fn spec_x0_z3(self, p: u8, q: u8) -> Cpu {
        self.spec_with_rp(p, spec_next(self.spec_rp(p), if q == 0 { 1 } else { -1 }))
    }

    /// LD r,n.
    #[verifier::opaque]
    pub open spec fn spec_load_imm(self, y: u8) -> Cpu {
        self.spec_skip(1).spec_with_r8(y, self.spec_imm8())
    }

    /// The opcodes $00-$3F.
    pub open spec fn spec_exec_x0(self, op: u8) -> Cpu {
        let y = (op / 8) % 8;
        let z = op % 8;
        if z == 0 {
            self.spec_x0_z0(y)
        } else if z == 1 {
            self.spec_x0_z1(y / 2, y % 2)
        } else if z == 2 {
            self.spec_x0_z2(y / 2, y % 2)
        } else if z == 3 {
            self.spec_x0_z3(y / 2, y % 2)
        } else if z == 4 {
            self.spec_inc_r8(y)
        } else if z == 5 {
            self.spec_dec_r8(y)
        } else if z == 6 {
            self.spec_load_imm(y)
        } else {
            self.spec_misc(y)
        }
    }

    /// HALT: the processor waits for an interrupt, unless one is pending
    /// while interrupts are not served: then it goes on, and reads the
    /// next opcode without moving the program counter.
    pub open spec fn spec_halt(self) -> Cpu {
        if !self.ime && self.bus.interrupts.spec_any_pending() {
            Cpu { halt_bug_pending: true, ..self }
        } else {
            Cpu { halted: true, ..self }
        }
    }

    /// An opcode that the processor does not define: the program
    /// counter goes back onto it.
    pub open spec fn spec_freeze(self) -> Cpu {
        self.spec_skip(-1)
    }

    /// The address of the page $FF00 with the given low byte.
    pub open spec fn spec_high_page(low: u8) -> u16 {
        (0xFF00 + low) as u16
    }

    /// The prefixed opcodes: rotations and shifts, BIT, RES and SET, on
    /// the operand `z`, with the bit `y`.
    #[verifier::opaque]
    pub open spec fn spec_exec_cb(self) -> Cpu {
        let op = self.spec_imm8();
        let s = self.spec_skip(1);
        let y = (op / 8) % 8;
        let z = op % 8;
        if op < 0x40 {
            s.spec_shift_r8(y, z)
        } else if op < 0x80 {
            s.spec_test_bit(s.spec_r8(z), y)
        } else {
            s.spec_with_r8(z, spec_with_bit(s.spec_r8(z), y, op >= 0xC0))
        }
    }

    /// The four conditional RET, LDH (n),A, ADD SP,e, LDH A,(n) and
    /// LD HL,SP+e.
    #[verifier::opaque]
    pub open spec fn spec_x3_z0(self, y: u8) -> Cpu {
        if y < 4 {
            self.spec_ret(self.spec_cond(y))
        } else if y == 4 {
            self.spec_skip(1).spec_write(Cpu::spec_high_page(self.spec_imm8()), self.a)
        } else if y == 5 {
            Cpu {
                sp: spec_add_signed(self.sp, self.spec_imm8()).value,
                f: spec_add_signed(self.sp, self.spec_imm8()).flags,
                ..self.spec_skip(1)
            }
        } else if y == 6 {
            Cpu { a: self.spec_read(Cpu::spec_high_page(self.spec_imm8())), ..self.spec_skip(1) }
        } else {
            Cpu {
                f: spec_add_signed(self.sp, self.spec_imm8()).flags,
                ..self.spec_skip(1).spec_with_reg_16(Regs16::HL, spec_add_signed(self.sp, self.spec_imm8()).value)
            }
        }
    }

    /// POP, RET, RETI, which also switches interrupts on at once, JP HL
    /// and LD SP,HL.
    #[verifier::opaque]
    pub open spec fn spec_x3_z1(self, p: u8, q: u8) -> Cpu {
        if q == 0 {
            self.spec_pop().spec_with_rp2(p, self.spec_top())
        } else if p == 0 {
            self.spec_ret(true)
        } else if p == 1 {
            Cpu { ime: true, ..self.spec_ret(true) }
        } else if p == 2 {
            Cpu { pc: self.spec_reg_16(Regs16::HL), ..self }
        } else {
            Cpu { sp: self.spec_reg_16(Regs16::HL), ..self }
        }
    }

    /// The four conditional JP, and the loads of A to and from the byte
    /// at $FF00+C and at an address.
    #[verifier::opaque]
    pub open spec fn spec_x3_z2(self, y: u8) -> Cpu {
        if y < 4 {
            self.spec_jump(self.spec_cond(y))
        } else if y == 4 {
            self.spec_write(Cpu::spec_high_page(self.c), self.a)
        } else if y == 5 {
            self.spec_skip(2).spec_write(self.spec_imm16(), self.a)
        } else if y == 6 {
            Cpu { a: self.spec_read(Cpu::spec_high_page(self.c)), ..self }
        } else {
            Cpu { a: self.spec_read(self.spec_imm16()), ..self.spec_skip(2) }
        }
    }

    /// JP, the prefix, DI, which also calls off a pending EI, and EI,
    /// which takes effect after the next instruction.
    #[verifier::opaque]
    pub open spec fn spec_x3_z3(self, y: u8) -> Cpu {
        if y == 0 {
            self.spec_jump(true)
        } else if y == 1 {
            self.spec_exec_cb()
        } else if y == 6 {
            Cpu { ime: false, ei_pending: false, ..self }
        } else if y == 7 {
            Cpu { ei_pending: true, ..self }
        } else {
            self.spec_freeze()
        }
    }

    /// The four conditional CALL.
    #[verifier::opaque]
    pub open spec fn spec_x3_z4(self, y: u8) -> Cpu {
        if y < 4 {
            self.spec_call(self.spec_cond(y))
        } else {
            self.spec_freeze()
        }
    }

    /// PUSH and CALL.
    #[verifier::opaque]
    pub open spec fn spec_x3_z5(self, p: u8, q: u8) -> Cpu {
        if q == 0 {
            self.spec_push(self.spec_rp2(p))
        } else if p == 0 {
            self.spec_call(true)
        } else {
            self.spec_freeze()
        }
    }

    /// The operations of the accumulator on the byte after the opcode.
    #[verifier::opaque]
    pub open spec fn spec_alu_imm(self, y: u8) -> Cpu {
        self.spec_skip(1).spec_alu_a(y, self.spec_imm8())
    }

    /// The opcodes $C0-$FF.
    pub open spec fn spec_exec_x3(self, op: u8) -> Cpu {
        let y = (op / 8) % 8;
        let z = op % 8;
        if z == 0 {
            self.spec_x3_z0(y)
        } else if z == 1 {
            self.spec_x3_z1(y / 2, y % 2)
        } else if z == 2 {
            self.spec_x3_z2(y)
        } else if z == 3 {
            self.spec_x3_z3(y)
        } else if z == 4 {
            self.spec_x3_z4(y)
        } else if z == 5 {
            self.spec_x3_z5(y / 2, y % 2)
        } else if z == 6 {
            self.spec_alu_imm(y)
        } else {
            self.spec_rst((y * 8) as u16)
        }
    }

    /// What the opcode `op` makes of the machine, from the state after
    /// it was read.
    #[verifier::opaque]
    pub open spec fn spec_execute(self, op: u8) -> Cpu {
        if op < 0x40 {
            self.spec_exec_x0(op)
        } else if op == OP_HALT {
            self.spec_halt()
        } else if op < 0x80 {
            self.spec_with_r8((op / 8) % 8, self.spec_r8(op % 8))
        } else if op < 0xC0 {
            self.spec_alu_a((op / 8) % 8, self.spec_r8(op % 8))
        } else {
            self.spec_exec_x3(op)
        }
    }

    /// Whether `op` is a conditional jump, call or return whose
    /// condition holds.
    pub open spec fn spec_branch_taken(self, op: u8) -> bool {
        let y = (op / 8) % 8;
        let z = op % 8;
        if op < 0x40 {
            z == 0 && y >= 4 && self.spec_cond((y - 4) as u8)
        } else if op >= 0xC0 {
            (z == 0 || z == 2 || z == 4) && y < 4 && self.spec_cond(y)
        } else {
            false
        }
    }

    /// Machine cycles that a taken branch adds to those of the table.
    pub open spec fn spec_branch_extra(op: u8) -> u8 {
        if op < 0x40 || op % 8 == 2 {
            1
        } else {
            3
        }
    }

    /// Machine cycles that the opcode `op` takes, from the state after it
    /// was read.
    #[verifier::opaque]
    pub open spec fn spec_cycles(self, op: u8) -> u8 {
        if op == OP_PREFIX {
            spec_cb_cycles(self.spec_imm8())
        } else if self.spec_branch_taken(op) {
            (OP_CYCLES[op as int] + Cpu::spec_branch_extra(op)) as u8
        } else {
            OP_CYCLES[op as int]
        }
    }

    // ---------------------------------------------------------------
    // One step
    // ---------------------------------------------------------------
    /// The machine after the interrupt with bit `index` was taken:
    /// interrupts are no longer served, the request is cleared, the
    /// program counter is pushed and set to the source's vector.
    pub open spec fn spec_service(self, index: u8) -> Cpu {
        let acked = Cpu {
            ime: false,
            halted: false,
            bus: Bus { interrupts: self.bus.interrupts.spec_acknowledge(index), ..self.bus },
            ..self
        };
        Cpu { pc: spec_vector(index), ..acked.spec_push(self.pc) }
    }

    /// The machine after the opcode at the program counter was read.
    pub open spec fn spec_fetch_op(self) -> Cpu {
        if self.halt_bug_pending {
            Cpu { halt_bug_pending: false, ..self }
        } else {
            self.spec_skip(1)
        }
    }

    /// The machine after the instruction at the program counter. If
    /// `armed` holds, the instruction before it was EI: interrupts are
    /// served from the end of this one, unless it is DI.
    pub open spec fn spec_run_instruction(self, armed: bool) -> Cpu {
        let op = self.spec_imm8();
        let done = self.spec_fetch_op().spec_execute(op);
        if armed && op != OP_DI {
            Cpu { ime: true, ..done }
        } else {
            done
        }
    }

    /// The machine one step later. A step takes the pending interrupt
    /// that is served first, if interrupts are served; else it does
    /// nothing, if the processor waits and no interrupt is pending; else
    /// it runs one instruction.
    #[verifier::opaque]
    pub open spec fn spec_step(self) -> Cpu {
        let index = self.bus.interrupts.spec_first_pending(0);
        let s = Cpu { ei_pending: false, ..self };
        if self.ime && index < SOURCES {
            s.spec_service(index)
        } else if self.halted && index >= SOURCES {
            s
        } else {
            (Cpu { halted: false, ..s }).spec_run_instruction(self.ei_pending)
        }
    }

    /// Machine cycles that the next step takes.
    #[verifier::opaque]
    pub open spec fn spec_step_cycles(self) -> u8 {
        let index = self.bus.interrupts.spec_first_pending(0);
        let s = Cpu { ei_pending: false, halted: false, ..self };
        if self.ime && index < SOURCES {
            INTERRUPT_CYCLES
        } else if self.halted && index >= SOURCES {
            1
        } else {
            s.spec_fetch_op().spec_cycles(s.spec_imm8())
        }
    }

    /// The machine one tick later: one step of the processor, then the
    /// other units moved on by the machine cycles that the step took.
    pub open spec fn spec_tick(self) -> Cpu {
        let s = self.spec_step();
        Cpu { bus: s.bus.spec_advance(self.spec_step_cycles()), ..s }
    }

    /// Whether the next tick completes a frame.
    pub open spec fn spec_tick_frame(self) -> bool {
        self.spec_step().bus.spec_advance_frame(self.spec_step_cycles())
    }

    /// The machine after ticks up to and with the first that completes a
    /// frame, or after `limit` ticks if none of them does.
    pub open spec fn spec_run_frame(self, limit: nat) -> Cpu
        decreases limit,
    {
        if limit == 0 {
            self
        } else if self.spec_tick_frame() {
            self.spec_tick()
        } else {
            self.spec_tick().spec_run_frame((limit - 1) as nat)
        }
    }

    /// Whether one of the next `limit` ticks completes a frame.
    pub open spec fn spec_run_frame_ready(self, limit: nat) -> bool
        decreases limit,
    {
        if limit == 0 {
            false
        } else if self.spec_tick_frame() {
            true
        } else {
            self.spec_tick().spec_run_frame_ready((limit - 1) as nat)
        }
    }

    // ---------------------------------------------------------------
    // Executable code
    // ---------------------------------------------------------------
    pub fn read_r8(&self, idx: u8) -> (val: u8)
        ensures
            val == self.spec_r8(idx),
    {
        match idx {
            0 => self.b,
            1 => self.c,
            2 => self.d,
            3 => self.e,
            4 => self.h,
            5 => self.l,
            6 => self.read_ram(self.get_reg_16(Regs16::HL)),
            _ => self.a,
        }
    }

    pub fn write_r8(&mut self, idx: u8, val: u8)
        requires
            old(self).wf(),
        ensures
            *final(self) == old(self).spec_with_r8(idx, val),
            final(self).wf(),
    {
        match idx {
            0 => { self.b = val },
            1 => { self.c = val },
            2 => { self.d = val },
            3 => { self.e = val },
            4 => { self.h = val },
            5 => { self.l = val },
            6 => {
                let addr = self.get_reg_16(Regs16::HL);
                self.write_ram(addr, val)
            },
            _ => { self.a = val },
        }
    }

    pub fn read_rp(&self, p: u8) -> (val: u16)
        ensures
            val == self.spec_rp(p),
    {
        match p {
            0 => self.get_reg_16(Regs16::BC),
            1 => self.get_reg_16(Regs16::DE),
            2 => self.get_reg_16(Regs16::HL),
            _ => self.sp,
        }
    }

    pub fn write_rp(&mut self, p: u8, val: u16)
        ensures
            *final(self) == old(self).spec_with_rp(p, val),
    {
        match p {
            0 => self.set_reg_16(Regs16::BC, val),
            1 => self.set_reg_16(Regs16::DE, val),
            2 => self.set_reg_16(Regs16::HL, val),
            _ => { self.sp = val },
        }
    }

    pub fn read_rp2(&self, p: u8) -> (val: u16)
        ensures
            val == self.spec_rp2(p),
    {
        if p == 3 {
            self.get_reg_16(Regs16::AF)
        } else {
            self.read_rp(p)
        }
    }

    pub fn write_rp2(&mut self, p: u8, val: u16)
        ensures
            *final(self) == old(self).spec_with_rp2(p, val),
    {
        if p == 3 {
            self.set_reg_16(Regs16::AF, val);
        } else {
            self.write_rp(p, val);
        }
    }

    pub fn cond(&self, cc: u8) -> (holds: bool)
        ensures
            holds == self.spec_cond(cc),
    {
        match cc {
            0 => !self.get_flag(Flags::Z),
            1 => self.get_flag(Flags::Z),
            2 => !self.get_flag(Flags::C),
            _ => self.get_flag(Flags::C),
        }
    }

    pub fn jump_rel(&mut self, taken: bool)
        ensures
            *final(self) == old(self).spec_jump_rel(taken),
    {
        let offset = self.fetch();
        if taken {
            if offset < 128 {
                self.pc = self.pc.wrapping_add(offset as u16);
            } else {
                self.pc = self.pc.wrapping_sub(256 - (offset as u16));
            }
        }
    }

    pub fn jump(&mut self, taken: bool)
        ensures
            *final(self) == old(self).spec_jump(taken),
    {
        let target = self.fetch_16();
        if taken {
            self.pc = target;
        }
    }

    pub fn call(&mut self, taken: bool)
        requires
            old(self).wf(),
        ensures
            *final(self) == old(self).spec_call(taken),
            final(self).wf(),
    {
        let target = self.fetch_16();
        if taken {
            let back = self.pc;
            self.push(back);
            self.pc = target;
        }
    }

    pub fn ret(&mut self, taken: bool)
        ensures
            *final(self) == old(self).spec_ret(taken),
    {
        if taken {
            let target = self.pop();
            self.pc = target;
        }
    }

    pub fn rst(&mut self, target: u16)
        requires
            old(self).wf(),
        ensures
            *final(self) == old(self).spec_rst(target),
            final(self).wf(),
    {
        let back = self.pc;
        self.push(back);
        self.pc = target;
    }

    pub fn alu_a(&mut self, kind: u8, val: u8)
        ensures
            *final(self) == old(self).spec_alu_a(kind, val),
            final(self).f % 16 == 0,
    {
        let out = alu::alu(kind, self.a, val, self.get_flag(Flags::C));
        self.a = out.value;
        self.f = out.flags;
    }

    pub fn shift_r8(&mut self, kind: u8, idx: u8)
        requires
            old(self).wf(),
        ensures
            *final(self) == old(self).spec_shift_r8(kind, idx),
            final(self).wf(),
    {
        let out = alu::shift(kind, self.read_r8(idx), self.get_flag(Flags::C));
        self.write_r8(idx, out.value);
        self.f = out.flags;
    }

    pub fn inc_r8(&mut self, idx: u8)
        requires
            old(self).wf(),
        ensures
            *final(self) == old(self).spec_inc_r8(idx),
            final(self).wf(),
    {
        let out = alu::inc_u8(self.read_r8(idx), self.get_flag(Flags::C));
        self.write_r8(idx, out.value);
        self.f = out.flags;
    }

    pub fn dec_r8(&mut self, idx: u8)
        requires
            old(self).wf(),
        ensures
            *final(self) == old(self).spec_dec_r8(idx),
            final(self).wf(),
    {
        let out = alu::dec_u8(self.read_r8(idx), self.get_flag(Flags::C));
        self.write_r8(idx, out.value);
        self.f = out.flags;
    }

    pub fn misc(&mut self, y: u8)
        requires
            old(self).wf(),
        ensures
            *final(self) == old(self).spec_misc(y),
            final(self).wf(),
    {
        reveal(Cpu::spec_misc);
        let z = self.get_flag(Flags::Z);
        let c = self.get_flag(Flags::C);
        if y < 4 {
            let out = alu::shift(y, self.a, c);
            self.a = out.value;
            self.f = alu::with_flag(out.flags, Flags::Z, false);
        } else if y == 4 {
            self.daa();
        } else if y == 5 {
            self.a = 255 - self.a;
            self.f = alu::pack_flags(z, true, true, c);
        } else if y == 6 {
            self.f = alu::pack_flags(z, false, false, true);
        } else {
            self.f = alu::pack_flags(z, false, false, !c);
        }
    }

    fn indirect(&self, p: u8) -> (addr: u16)
        ensures
            addr == self.spec_indirect(p),
    {
        match p {
            0 => self.get_reg_16(Regs16::BC),
            1 => self.get_reg_16(Regs16::DE),
            _ => self.get_reg_16(Regs16::HL),
        }
    }

    fn after_indirect(&mut self, p: u8)
        ensures
            *final(self) == old(self).spec_after_indirect(p),
    {
        if p == 2 {
            self.inc_16(Regs16::HL);
        } else if p == 3 {
            self.dec_16(Regs16::HL);
        }
    }

    fn x0_z0(&mut self, y: u8)
        requires
            old(self).wf(),
            y < 8,
        ensures
            *final(self) == old(self).spec_x0_z0(y),
            final(self).wf(),
    {
        reveal(Cpu::spec_x0_z0);
        if y == 0 {
        } else if y == 1 {
            let addr = self.fetch_16();
            let sp = self.sp;
            self.write_ram_16(addr, sp);
        } else if y == 2 {
            self.fetch();
        } else if y == 3 {
            self.jump_rel(true);
        } else {
            let taken = self.cond(y - 4);
            self.jump_rel(taken);
        }
    }

    fn x0_z1(&mut self, p: u8, q: u8)
        requires
            old(self).wf(),
        ensures
            *final(self) == old(self).spec_x0_z1(p, q),
            final(self).wf(),
    {
        reveal(Cpu::spec_x0_z1);
        if q == 0 {
            let val = self.fetch_16();
            self.write_rp(p, val);
        } else {
            let source = self.read_rp(p);
            self.add_nn_d16(Regs16::HL, source);
        }
    }

    fn x0_z2(&mut self, p: u8, q: u8)
        requires
            old(self).wf(),
        ensures
            *final(self) == old(self).spec_x0_z2(p, q),
            final(self).wf(),
    {
        reveal(Cpu::spec_x0_z2);
        let addr = self.indirect(p);
        if q == 0 {
            let a = self.a;
            self.write_ram(addr, a);
        } else {
            self.a = self.read_ram(addr);
        }
        self.after_indirect(p);
    }

    fn x0_z3(&mut self, p: u8, q: u8)
        requires
            old(self).wf(),
        ensures
            *final(self) == old(self).spec_x0_z3(p, q),
            final(self).wf(),
    {
        reveal(Cpu::spec_x0_z3);
        let val = self.read_rp(p);
        if q == 0 {
            self.write_rp(p, val.wrapping_add(1));
        } else {
            self.write_rp(p, val.wrapping_sub(1));
        }
    }

    fn load_imm(&mut self, y: u8)
        requires
            old(self).wf(),
        ensures
            *final(self) == old(self).spec_load_imm(y),
            final(self).wf(),
    {
        reveal(Cpu::spec_load_imm);
        let val = self.fetch();
        self.write_r8(y, val);
    }

    /// Executes an opcode of $00-$3F.
    pub fn exec_x0(&mut self, op: u8)
        requires
            old(self).wf(),
            op < 0x40,
        ensures
            *final(self) == old(self).spec_exec_x0(op),
            final(self).wf(),
    {
        let y = (op / 8) % 8;
        let z = op % 8;
        match z {
            0 => self.x0_z0(y),
            1 => self.x0_z1(y / 2, y % 2),
            2 => self.x0_z2(y / 2, y % 2),
            3 => self.x0_z3(y / 2, y % 2),
            4 => self.inc_r8(y),
            5 => self.dec_r8(y),
            6 => self.load_imm(y),
            _ => self.misc(y),
        }
    }

    /// Executes HALT.
    pub fn halt(&mut self)
        ensures
            *final(self) == old(self).spec_halt(),
    {
        if !self.ime && self.bus.interrupts.first_pending() < SOURCES {
            self.halt_bug_pending = true;
        } else {
            self.halted = true;
        }
    }

    /// Executes a prefixed opcode.
    pub fn exec_cb(&mut self)
        requires
            old(self).wf(),
        ensures
            *final(self) == old(self).spec_exec_cb(),
            final(self).wf(),
    {
        reveal(Cpu::spec_exec_cb);
        let op = self.fetch();
        let y = (op / 8) % 8;
        let z = op % 8;
        if op < 0x40 {
            self.shift_r8(y, z);
        } else if op < 0x80 {
            let val = self.read_r8(z);
            self.test_bit(val, y);
        } else {
            let val = self.read_r8(z);
            self.write_r8(z, write_bit(val, y, op >= 0xC0));
        }
    }

    fn high_page(low: u8) -> (addr: u16)
        ensures
            addr == Cpu::spec_high_page(low),
    {
        0xFF00 + (low as u16)
    }

    fn x3_z0(&mut self, y: u8)
        requires
            old(self).wf(),
        ensures
            *final(self) == old(self).spec_x3_z0(y),
            final(self).wf(),
    {
        reveal(Cpu::spec_x3_z0);
        if y < 4 {
            let taken = self.cond(y);
            self.ret(taken);
        } else if y == 4 {
            let low = self.fetch();
            let a = self.a;
            self.write_ram(Cpu::high_page(low), a);
        } else if y == 5 {
            let offset = self.fetch();
            let out = alu::add_signed(self.sp, offset);
            self.sp = out.value;
            self.f = out.flags;
        } else if y == 6 {
            let low = self.fetch();
            self.a = self.bus.read_ram(Cpu::high_page(low));
        } else {
            let offset = self.fetch();
            let out = alu::add_signed(self.sp, offset);
            self.set_reg_16(Regs16::HL, out.value);
            self.f = out.flags;
        }
    }

    fn x3_z1(&mut self, p: u8, q: u8)
        requires
            old(self).wf(),
        ensures
            *final(self) == old(self).spec_x3_z1(p, q),
            final(self).wf(),
    {
        reveal(Cpu::spec_x3_z1);
        if q == 0 {
            let val = self.pop();
            self.write_rp2(p, val);
        } else if p == 0 {
            self.ret(true);
        } else if p == 1 {
            self.ret(true);
            self.ime = true;
        } else if p == 2 {
            self.pc = self.get_reg_16(Regs16::HL);
        } else {
            self.sp = self.get_reg_16(Regs16::HL);
        }
    }

    fn x3_z2(&mut self, y: u8)
        requires
            old(self).wf(),
        ensures
            *final(self) == old(self).spec_x3_z2(y),
            final(self).wf(),
    {
        reveal(Cpu::spec_x3_z2);
        if y < 4 {
            let taken = self.cond(y);
            self.jump(taken);
        } else if y == 4 {
            let a = self.a;
            let addr = Cpu::high_page(self.c);
            self.write_ram(addr, a);
        } else if y == 5 {
            let addr = self.fetch_16();
            let a = self.a;
            self.write_ram(addr, a);
        } else if y == 6 {
            self.a = self.bus.read_ram(Cpu::high_page(self.c));
        } else {
            let addr = self.fetch_16();
            self.a = self.bus.read_ram(addr);
        }
    }

    fn x3_z3(&mut self, y: u8)
        requires
            old(self).wf(),
        ensures
            *final(self) == old(self).spec_x3_z3(y),
            final(self).wf(),
    {
        reveal(Cpu::spec_x3_z3);
        if y == 0 {
            self.jump(true);
        } else if y == 1 {
            self.exec_cb();
        } else if y == 6 {
            self.ime = false;
            self.ei_pending = false;
        } else if y == 7 {
            self.ei_pending = true;
        } else {
            self.pc = self.pc.wrapping_sub(1);
        }
    }

    fn x3_z4(&mut self, y: u8)
        requires
            old(self).wf(),
        ensures
            *final(self) == old(self).spec_x3_z4(y),
            final(self).wf(),
    {
        reveal(Cpu::spec_x3_z4);
        if y < 4 {
            let taken = self.cond(y);
            self.call(taken);
        } else {
            self.pc = self.pc.wrapping_sub(1);
        }
    }

    fn x3_z5(&mut self, p: u8, q: u8)
        requires
            old(self).wf(),
        ensures
            *final(self) == old(self).spec_x3_z5(p, q),
            final(self).wf(),
    {
        reveal(Cpu::spec_x3_z5);
        if q == 0 {
            let val = self.read_rp2(p);
            self.push(val);
        } else if p == 0 {
            self.call(true);
        } else {
            self.pc = self.pc.wrapping_sub(1);
        }
    }

    fn alu_imm(&mut self, y: u8)
        requires
            old(self).wf(),
        ensures
            *final(self) == old(self).spec_alu_imm(y),
            final(self).wf(),
    {
        reveal(Cpu::spec_alu_imm);
        let val = self.fetch();
        self.alu_a(y, val);
    }

    /// Executes an opcode of $C0-$FF.
    pub fn exec_x3(&mut self, op: u8)
        requires
            old(self).wf(),
            op >= 0xC0,
        ensures
            *final(self) == old(self).spec_exec_x3(op),
            final(self).wf(),
    {
        let y = (op / 8) % 8;
        let z = op % 8;
        match z {
            0 => self.x3_z0(y),
            1 => self.x3_z1(y / 2, y % 2),
            2 => self.x3_z2(y),
            3 => self.x3_z3(y),
            4 => self.x3_z4(y),
            5 => self.x3_z5(y / 2, y % 2),
            6 => self.alu_imm(y),
            _ => self.rst((y as u16) * 8),
        }
    }

    /// Machine cycles that `op` takes, in the state after it was read.
    pub fn cycles(&self, op: u8) -> (m_cycles: u8)
        ensures
            m_cycles == self.spec_cycles(op),
            1 <= m_cycles <= 6,
    {
        reveal(Cpu::spec_cycles);
        let y = (op / 8) % 8;
        let z = op % 8;
        proof {
            lemma_cycle_table(op);
        }
        if op == OP_PREFIX {
            let cb = self.read_ram(self.pc);
            if cb % 8 != 6 {
                2
            } else if cb / 64 == 1 {
                3
            } else {
                4
            }
        } else {
            let table = OP_CYCLES;
            let base = table[op as usize];
            let taken = if op < 0x40 {
                z == 0 && y >= 4 && self.cond(y - 4)
            } else if op >= 0xC0 {
                (z == 0 || z == 2 || z == 4) && y < 4 && self.cond(y)
            } else {
                false
            };
            if !taken {
                base
            } else if op < 0x40 || z == 2 {
                base + 1
            } else {
                base + 3
            }
        }
    }

    /// Executes the opcode `op`, which was read before. Returns the
    /// machine cycles it takes.
    pub fn execute(&mut self, op: u8) -> (m_cycles: u8)
        requires
            old(self).wf(),
        ensures
            *final(self) == old(self).spec_execute(op),
            m_cycles == old(self).spec_cycles(op),
            1 <= m_cycles <= 6,
            final(self).wf(),
    {
        reveal(Cpu::spec_execute);
        let m_cycles = self.cycles(op);
        if op < 0x40 {
            self.exec_x0(op);
        } else if op == OP_HALT {
            self.halt();
        } else if op < 0x80 {
            let val = self.read_r8(op % 8);
            self.write_r8((op / 8) % 8, val);
        } else if op < 0xC0 {
            let val = self.read_r8(op % 8);
            self.alu_a((op / 8) % 8, val);
        } else {
            self.exec_x3(op);
        }
        m_cycles
    }

    /// Takes the interrupt with bit `index`.
    pub fn service(&mut self, index: u8)
        requires
            old(self).wf(),
            index < SOURCES,
        ensures
            *final(self) == old(self).spec_service(index),
            final(self).wf(),
    {
        self.ime = false;
        self.halted = false;
        self.bus.interrupts.acknowledge(index);
        let back = self.pc;
        self.push(back);
        self.pc = 0x40 + 8 * (index as u16);
    }

    /// Reads the opcode at the program counter and executes it. Returns
    /// the machine cycles it took.
    pub fn run_instruction(&mut self, armed: bool) -> (m_cycles: u8)
        requires
            old(self).wf(),
        ensures
            *final(self) == old(self).spec_run_instruction(armed),
            m_cycles == old(self).spec_fetch_op().spec_cycles(old(self).spec_imm8()),
            1 <= m_cycles <= 6,
            final(self).wf(),
    {
        let op = self.read_ram(self.pc);
        if self.halt_bug_pending {
            self.halt_bug_pending = false;
        } else {
            self.pc = self.pc.wrapping_add(1);
        }
        let m_cycles = self.execute(op);
        if armed && op != OP_DI {
            self.ime = true;
        }
        m_cycles
    }

    /// Executes one step of the processor: an interrupt, a wait, or an
    /// instruction. Returns the machine cycles it took.
    pub fn step(&mut self) -> (m_cycles: u8)
        requires
            old(self).wf(),
        ensures
            *final(self) == old(self).spec_step(),
            m_cycles == old(self).spec_step_cycles(),
            1 <= m_cycles <= 6,
            final(self).wf(),
    {
        reveal(Cpu::spec_step);
        reveal(Cpu::spec_step_cycles);
        let armed = self.ei_pending;
        self.ei_pending = false;
        let index = self.bus.interrupts.first_pending();
        if self.ime && index < SOURCES {
            self.service(index);
            return INTERRUPT_CYCLES;
        }
        if self.halted && index >= SOURCES {
            return 1;
        }
        self.halted = false;
        self.run_instruction(armed)
    }

    /// Executes one step of the processor and moves the other units on by
    /// the time it took. Says whether that completed a frame.
    pub fn tick(&mut self) -> (frame_ready: bool)
        requires
            old(self).wf(),
        ensures
            *final(self) == old(self).spec_tick(),
            frame_ready == old(self).spec_tick_frame(),
            final(self).wf(),
    {
        let m_cycles = self.step();
        self.bus.advance(m_cycles)
    }

    /// Runs the machine until a frame is complete. Says whether one is:
    /// a program that keeps putting the line counter back can hold the
    /// picture unit off vertical blanking, so the run ends without a
    /// frame after the ticks that a frame has machine cycles.
    pub fn step_frame(&mut self) -> (frame_ready: bool)
        requires
            old(self).wf(),
        ensures
            *final(self) == old(self).spec_run_frame(FRAME_STEP_LIMIT as nat),
            frame_ready == old(self).spec_run_frame_ready(FRAME_STEP_LIMIT as nat),
            final(self).wf(),
    {
        let mut left: u32 = FRAME_STEP_LIMIT;
        let mut frame_ready = false;
        while left > 0 && !frame_ready
            invariant
                self.wf(),
                frame_ready ==> *self == old(self).spec_run_frame(FRAME_STEP_LIMIT as nat) && old(
                    self,
                ).spec_run_frame_ready(FRAME_STEP_LIMIT as nat),
                !frame_ready ==> self.spec_run_frame(left as nat) == old(self).spec_run_frame(
                    FRAME_STEP_LIMIT as nat,
                ) && self.spec_run_frame_ready(left as nat) == old(self).spec_run_frame_ready(
                    FRAME_STEP_LIMIT as nat,
                ),
            decreases left + (if frame_ready { 0int } else { 1int }),
        {
            frame_ready = self.tick();
            left = left - 1;
        }
        frame_ready
    }
}

impl Cpu {
    /// Whether none of the next `limit` steps of the processor, up to the
    /// first tick that completes a frame, moves the clock of the picture
    /// unit: the program does not write to the line register.
    pub open spec fn spec_leaves_clock_alone(self, limit: nat) -> bool
        decreases limit,
    {
        limit == 0 || (self.spec_step().bus.ppu.clock == self.bus.ppu.clock && (self.spec_tick_frame()
            || self.spec_tick().spec_leaves_clock_alone((limit - 1) as nat)))
    }
}

/// The instructions of the accumulator, on a register, on the byte at HL
/// or on the byte after the opcode, leave in A and in F what the operation
/// makes of A and the operand: for ADD, SUB, CP, AND, OR and XOR the
/// flags are those of `lemma_alu_flags`, whatever the two operands are.
pub proof fn lemma_alu_instructions(cpu: Cpu, op: u8)
    requires
        0x80 <= op < 0xC0 || (op >= 0xC0 && op % 8 == 6),
    ensures
        ({
            let kind = (op / 8) % 8;
            let operand = if op < 0xC0 { cpu.spec_r8(op % 8) } else { cpu.spec_imm8() };
            let out = spec_alu(kind, cpu.a, operand, cpu.spec_flag(Flags::C));
            cpu.spec_execute(op) == (Cpu {
                a: out.value,
                f: out.flags,
                pc: if op < 0xC0 { cpu.pc } else { spec_next(cpu.pc, 1) },
                ..cpu
            })
        }),
{
    reveal(Cpu::spec_execute);
    reveal(Cpu::spec_alu_imm);
}

/// Taking an interrupt switches the master enable off, clears the
/// request that is served and no other, pushes the program counter and
/// goes to the vector of the source, in five machine cycles. The stack
/// must lie in RAM that holds what is written to it.
pub proof fn lemma_interrupt_dispatch(cpu: Cpu, other: u8)
    requires
        cpu.ime,
        cpu.bus.interrupts.spec_any_pending(),
        crate::bus::spec_holds_writes(cpu.bus, cpu.sp),
        crate::bus::spec_holds_writes(cpu.bus, spec_next(cpu.sp, -1)),
        other < SOURCES,
    ensures
        ({
            let index = cpu.bus.interrupts.spec_first_pending(0);
            let taken = cpu.spec_step();
            &&& cpu.spec_step_cycles() == INTERRUPT_CYCLES
            &&& !taken.ime
            &&& !taken.halted
            &&& taken.pc == spec_vector(index)
            &&& taken.sp == spec_next(cpu.sp, -2)
            &&& taken.spec_top() == cpu.pc
            &&& !taken.bus.interrupts.spec_is_pending(index)
            &&& other != index ==> taken.bus.interrupts.spec_is_pending(other) == cpu.bus.interrupts.spec_is_pending(
                other,
            )
        }),
{
    reveal(Cpu::spec_step);
    reveal(Cpu::spec_step_cycles);
    let index = cpu.bus.interrupts.spec_first_pending(0);
    let acked = Cpu {
        ei_pending: false,
        ime: false,
        halted: false,
        bus: Bus { interrupts: cpu.bus.interrupts.spec_acknowledge(index), ..cpu.bus },
        ..cpu
    };
    crate::cpu::lemma_push_pop(acked, cpu.pc);
    crate::interrupt::lemma_acknowledge_clears_one(cpu.bus.interrupts, index, other);
    crate::interrupt::lemma_acknowledge_clears_one(cpu.bus.interrupts, index, index);
    let below = spec_next(cpu.sp, -1);
    assert(acked.bus.spec_write(below, crate::utils::spec_high_byte(cpu.pc)).interrupts == acked.bus.interrupts) by {
        reveal(Bus::spec_write);
    }
    assert(acked.bus.spec_write(below, crate::utils::spec_high_byte(cpu.pc)).spec_write(
        cpu.sp,
        crate::utils::spec_low_byte(cpu.pc),
    ).interrupts == acked.bus.interrupts) by {
        reveal(Bus::spec_write);
    }
}

/// EI takes one machine cycle, moves to the next instruction and asks
/// for interrupts to be served after it; it does not switch them on.
pub proof fn lemma_ei(cpu: Cpu)
    requires
        !cpu.ime,
        !cpu.halted,
        !cpu.halt_bug_pending,
        !cpu.ei_pending,
        cpu.spec_imm8() == 0xFB,
    ensures
        cpu.spec_step_cycles() == 1,
        cpu.spec_step() == (Cpu { ei_pending: true, ..cpu.spec_skip(1) }),
{
    reveal(Cpu::spec_step);
    reveal(Cpu::spec_step_cycles);
    reveal(Cpu::spec_execute);
    reveal(Cpu::spec_x3_z3);
    reveal(Cpu::spec_cycles);
    let table = OP_CYCLES;
    assert(table[0xFB] == 1);
    let s = Cpu { ei_pending: false, halted: false, ..cpu };
    assert(s == cpu);
    assert(s.spec_fetch_op() == cpu.spec_skip(1));
    assert(cpu.spec_skip(1).spec_execute(0xFB) == cpu.spec_skip(1).spec_x3_z3(7));
}

/// The instruction after EI still runs with interrupts off, whatever is
/// pending, and leaves them on, unless it is DI.
pub proof fn lemma_ei_is_deferred(after_ei: Cpu)
    requires
        !after_ei.ime,
        !after_ei.halted,
        after_ei.ei_pending,
        after_ei.spec_imm8() != OP_DI,
    ensures
        after_ei.spec_step() == (Cpu {
            ime: true,
            ..(Cpu { ei_pending: false, ..after_ei }).spec_fetch_op().spec_execute(after_ei.spec_imm8())
        }),
{
    reveal(Cpu::spec_step);
    let s = Cpu { ei_pending: false, ..after_ei };
    assert((Cpu { halted: false, ..s }) == s);
    assert(s.spec_imm8() == after_ei.spec_imm8());
}

/// DI right after EI keeps interrupts off.
pub proof fn lemma_di_after_ei(after_ei: Cpu)
    requires
        !after_ei.ime,
        !after_ei.halted,
        !after_ei.halt_bug_pending,
        after_ei.ei_pending,
        after_ei.spec_imm8() == OP_DI,
    ensures
        after_ei.spec_step() == (Cpu { ei_pending: false, ..after_ei.spec_skip(1) }),
{
    reveal(Cpu::spec_step);
    reveal(Cpu::spec_execute);
    reveal(Cpu::spec_x3_z3);
    let s = Cpu { ei_pending: false, ..after_ei };
    assert((Cpu { halted: false, ..s }) == s);
    assert(s.spec_imm8() == OP_DI);
    assert(s.spec_fetch_op() == s.spec_skip(1));
    assert(s.spec_skip(1).spec_execute(OP_DI) == s.spec_skip(1).spec_x3_z3(6));
}

/// Every step of the processor takes between one and six machine cycles.
pub proof fn lemma_step_cycles_bound(cpu: Cpu)
    ensures
        1 <= cpu.spec_step_cycles() <= 6,
{
    reveal(Cpu::spec_step_cycles);
    reveal(Cpu::spec_cycles);
    let s = Cpu { ei_pending: false, halted: false, ..cpu };
    lemma_cycle_table(s.spec_imm8());
}

/// A program that leaves the line register alone gets its frame: within
/// `limit` ticks the picture unit enters vertical blanking, if `limit`
/// ticks of one machine cycle each are enough to get there.
pub proof fn lemma_frame_is_reached(cpu: Cpu, limit: nat)
    requires
        cpu.bus.ppu.wf(),
        cpu.spec_leaves_clock_alone(limit),
        4 * limit >= cpu.bus.ppu.clock.spec_dots_to_frame(),
    ensures
        cpu.spec_run_frame_ready(limit),
    decreases limit,
{
    let m = cpu.spec_step_cycles();
    let stepped = cpu.spec_step();
    lemma_step_cycles_bound(cpu);
    crate::ppu::clock::lemma_frame_distance(cpu.bus.ppu.clock, 4 * m as nat);
    if limit > 0 {
        crate::bus::lemma_advance_follows_clock(stepped.bus, m);
        if !cpu.spec_tick_frame() {
            lemma_frame_is_reached(cpu.spec_tick(), (limit - 1) as nat);
        }
    }
}

/// From any state of the picture unit, a call of `step_frame` on a
/// program that leaves the line register alone ends with a frame.
pub proof fn lemma_step_frame_completes(cpu: Cpu)
    requires
        cpu.bus.ppu.wf(),
        cpu.spec_leaves_clock_alone(FRAME_STEP_LIMIT as nat),
    ensures
        cpu.spec_run_frame_ready(FRAME_STEP_LIMIT as nat),
{
    crate::ppu::clock::lemma_frame_distance(cpu.bus.ppu.clock, 0);
    lemma_frame_is_reached(cpu, FRAME_STEP_LIMIT as nat);
}

/// Every opcode takes between one and six machine cycles, a taken branch
/// counted in.
pub proof fn lemma_cycle_table(op: u8)
    ensures
        1 <= OP_CYCLES[op as int] <= 6,
        1 <= OP_CYCLES[op as int] + Cpu::spec_branch_extra(op) <= 6 || !((op < 0x40 && op % 8 == 0 && (op / 8) % 8
            >= 4) || (op >= 0xC0 && (op % 8 == 0 || op % 8 == 2 || op % 8 == 4) && (op / 8) % 8 < 4)),
{
    let table = OP_CYCLES;
    assert forall|i: int| 0 <= i < 256 implies 1 <= #[trigger] table[i] <= 6 by {}
}

} // verus!
