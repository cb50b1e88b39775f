//! The arithmetic and logic unit: what each operation makes of its
//! operands, as a result byte and a flag byte.
//!
//! The flag byte holds Z in bit 7, N in bit 6, H in bit 5 and C in bit 4;
//! its low four bits are zero.

use vstd::prelude::*;
use crate::cpu::Flags;
use crate::utils::check_h_borrow_u8;
use crate::utils::check_h_carry_u16;
use crate::utils::check_h_carry_u8;

verus! {

/// Result and flags of an operation on bytes.
#[derive(Clone, Copy, PartialEq, Eq, Structural, Debug)]
pub struct AluOut {
    pub value: u8,
    pub flags: u8,
}

/// Result and flags of an operation on words.
#[derive(Clone, Copy, PartialEq, Eq, Structural, Debug)]
pub struct AluOut16 {
    pub value: u16,
    pub flags: u8,
}

/// Weight of a flag's bit in the flag byte.
pub open spec fn spec_flag_weight(f: Flags) -> u8 {
    match f {
        Flags::Z => 128,
        Flags::N => 64,
        Flags::H => 32,
        Flags::C => 16,
    }
}

/// Whether a flag is set in a flag byte.
pub open spec fn spec_flag_of(fb: u8, f: Flags) -> bool {
    match f {
        Flags::Z => (fb / 128) % 2 == 1,
        Flags::N => (fb / 64) % 2 == 1,
        Flags::H => (fb / 32) % 2 == 1,
        Flags::C => (fb / 16) % 2 == 1,
    }
}

/// A flag byte with one flag forced to `val`.
pub open spec fn spec_with_flag(fb: u8, f: Flags, val: bool) -> u8 {
    if spec_flag_of(fb, f) == val {
        fb
    } else if val {
        (fb + spec_flag_weight(f)) as u8
    } else {
        (fb - spec_flag_weight(f)) as u8
    }
}

/// The flag byte that holds the four given flags.
pub open spec fn spec_pack_flags(z: bool, n: bool, h: bool, c: bool) -> u8 {
    ((if z { 128int } else { 0int }) + (if n { 64int } else { 0int }) + (if h { 32int } else { 0int }) + (if c {
        16int
    } else {
        0int
    })) as u8
}

pub open spec fn spec_carry_in(carry: bool) -> int {
    if carry {
        1
    } else {
        0
    }
}

/// `a + val + carry`: Z from the result, N clear, H the carry out of
/// bit 3, C the carry out of bit 7.
pub open spec fn spec_add(a: u8, val: u8, carry: bool) -> AluOut {
    let sum = a + val + spec_carry_in(carry);
    AluOut {
        value: (sum % 256) as u8,
        flags: spec_pack_flags(
            sum % 256 == 0,
            false,
            a % 16 + val % 16 + spec_carry_in(carry) > 15,
            sum > 255,
        ),
    }
}

/// `a - val - carry`: Z from the result, N set, H the borrow into
/// bit 3, C the borrow into bit 7.
pub open spec fn spec_sub(a: u8, val: u8, carry: bool) -> AluOut {
    let diff = a - val - spec_carry_in(carry);
    AluOut {
        value: (diff % 256) as u8,
        flags: spec_pack_flags(
            diff % 256 == 0,
            true,
            a % 16 < val % 16 + spec_carry_in(carry),
            diff < 0,
        ),
    }
}

pub open spec fn spec_and(a: u8, val: u8) -> AluOut {
    AluOut { value: a & val, flags: spec_pack_flags(a & val == 0, false, true, false) }
}

pub open spec fn spec_or(a: u8, val: u8) -> AluOut {
    AluOut { value: a | val, flags: spec_pack_flags(a | val == 0, false, false, false) }
}

pub open spec fn spec_xor(a: u8, val: u8) -> AluOut {
    AluOut { value: a ^ val, flags: spec_pack_flags(a ^ val == 0, false, false, false) }
}

/// `val + 1`; C is kept.
pub open spec fn spec_inc(val: u8, c: bool) -> AluOut {
    AluOut {
        value: ((val + 1) % 256) as u8,
        flags: spec_pack_flags(val == 255, false, val % 16 == 15, c),
    }
}

/// `val - 1`; C is kept.
pub open spec fn spec_dec(val: u8, c: bool) -> AluOut {
    AluOut {
        value: ((val - 1) % 256) as u8,
        flags: spec_pack_flags(val == 1, true, val % 16 == 0, c),
    }
}

/// `target + source` on words: Z is kept, N clear, H the carry out of
/// bit 11, C the carry out of bit 15.
pub open spec fn spec_add_16(target: u16, source: u16, z: bool) -> AluOut16 {
    AluOut16 {
        value: ((target + source) % 0x10000) as u16,
        flags: spec_pack_flags(z, false, target % 4096 + source % 4096 > 4095, target + source > 0xFFFF),
    }
}

/// The signed number that an offset byte stands for.
pub open spec fn spec_signed(offset: u8) -> int {
    if offset < 128 {
        offset as int
    } else {
        offset - 256
    }
}

/// `sp` plus a signed offset: Z and N clear, H and C the carries out
/// of bit 3 and bit 7 of the unsigned addition of the low bytes.
pub open spec fn spec_add_signed(sp: u16, offset: u8) -> AluOut16 {
    AluOut16 {
        value: ((sp + spec_signed(offset)) % 0x10000) as u16,
        flags: spec_pack_flags(false, false, sp % 16 + offset % 16 > 15, sp % 256 + offset > 255),
    }
}

/// Decimal adjustment of `a` after an addition (`n` clear) or a
/// subtraction (`n` set) of packed decimal numbers.
///
/// After an addition, $60 is added if C is set or `a` is above $99, which
/// sets C; then $06 is added if H is set or the low digit is above 9.
/// After a subtraction, $60 is taken off if C is set and $06 if H is set.
/// Z is set from the result and H is cleared.
pub open spec fn spec_daa(a: u8, n: bool, h: bool, c: bool) -> AluOut {
    if !n {
        let high = c || a > 0x99;
        let a1 = if high { (a + 0x60) % 256 } else { a as int };
        let a2 = if h || a1 % 16 > 9 { (a1 + 0x06) % 256 } else { a1 };
        AluOut { value: a2 as u8, flags: spec_pack_flags(a2 == 0, n, false, high) }
    } else {
        let a1 = if c { (a - 0x60) % 256 } else { a as int };
        let a2 = if h { (a1 - 0x06) % 256 } else { a1 };
        AluOut { value: a2 as u8, flags: spec_pack_flags(a2 == 0, n, false, c) }
    }
}

/// Rotation to the left by one bit: through C if `carry` holds, else
/// within the byte. C takes the bit that leaves at the top.
pub open spec fn spec_rot_left(byte: u8, carry: bool, c: bool) -> AluOut {
    let low = if carry { spec_carry_in(c) } else { byte as int / 128 };
    let value = ((byte % 128) * 2 + low) as u8;
    AluOut { value, flags: spec_pack_flags(value == 0, false, false, byte >= 128) }
}

/// Rotation to the right by one bit: through C if `carry` holds, else
/// within the byte. C takes the bit that leaves at the bottom.
pub open spec fn spec_rot_right(byte: u8, carry: bool, c: bool) -> AluOut {
    let high = if carry { spec_carry_in(c) } else { byte as int % 2 };
    let value = (byte / 2 + high * 128) as u8;
    AluOut { value, flags: spec_pack_flags(value == 0, false, false, byte % 2 == 1) }
}

/// Shift to the left by one bit; C takes the bit that leaves.
pub open spec fn spec_shift_left(byte: u8) -> AluOut {
    let value = ((byte % 128) * 2) as u8;
    AluOut { value, flags: spec_pack_flags(value == 0, false, false, byte >= 128) }
}

/// Shift to the right by one bit; the top bit is kept if `arith` holds,
/// else cleared; C takes the bit that leaves.
pub open spec fn spec_shift_right(byte: u8, arith: bool) -> AluOut {
    let value = (byte / 2 + (if arith { (byte as int / 128) * 128 } else { 0 })) as u8;
    AluOut { value, flags: spec_pack_flags(value == 0, false, false, byte % 2 == 1) }
}

/// The two halves of a byte exchanged.
pub open spec fn spec_swap(byte: u8) -> AluOut {
    let value = ((byte % 16) * 16 + byte / 16) as u8;
    AluOut { value, flags: spec_pack_flags(value == 0, false, false, false) }
}

/// The eight operations of the accumulator, in the order of their
/// opcodes: ADD, ADC, SUB, SBC, AND, XOR, OR, CP. CP leaves the
/// accumulator as it was.
pub open spec fn spec_alu(kind: u8, a: u8, val: u8, c: bool) -> AluOut {
    if kind == 0 {
        spec_add(a, val, false)
    } else if kind == 1 {
        spec_add(a, val, c)
    } else if kind == 2 {
        spec_sub(a, val, false)
    } else if kind == 3 {
        spec_sub(a, val, c)
    } else if kind == 4 {
        spec_and(a, val)
    } else if kind == 5 {
        spec_xor(a, val)
    } else if kind == 6 {
        spec_or(a, val)
    } else {
        AluOut { value: a, flags: spec_sub(a, val, false).flags }
    }
}

/// The eight rotations and shifts of the prefixed opcodes, in their
/// order: RLC, RRC, RL, RR, SLA, SRA, SWAP, SRL.
pub open spec fn spec_shift(kind: u8, byte: u8, c: bool) -> AluOut {
    if kind == 0 {
        spec_rot_left(byte, false, c)
    } else if kind == 1 {
        spec_rot_right(byte, false, c)
    } else if kind == 2 {
        spec_rot_left(byte, true, c)
    } else if kind == 3 {
        spec_rot_right(byte, true, c)
    } else if kind == 4 {
        spec_shift_left(byte)
    } else if kind == 5 {
        spec_shift_right(byte, true)
    } else if kind == 6 {
        spec_swap(byte)
    } else {
        spec_shift_right(byte, false)
    }
}

pub fn flag_weight(f: Flags) -> (w: u8)
    ensures
        w == spec_flag_weight(f),
{
    match f {
        Flags::Z => 128,
        Flags::N => 64,
        Flags::H => 32,
        Flags::C => 16,
    }
}

pub fn flag_of(fb: u8, f: Flags) -> (set: bool)
    ensures
        set == spec_flag_of(fb, f),
{
    match f {
        Flags::Z => (fb / 128) % 2 == 1,
        Flags::N => (fb / 64) % 2 == 1,
        Flags::H => (fb / 32) % 2 == 1,
        Flags::C => (fb / 16) % 2 == 1,
    }
}

pub fn with_flag(fb: u8, f: Flags, val: bool) -> (r: u8)
    ensures
        r == spec_with_flag(fb, f, val),
        r % 16 == fb % 16,
{
    let w = flag_weight(f);
    proof {
        lemma_flag_bits(fb, spec_flag_weight(f), spec_flag_weight(f));
    }
    if flag_of(fb, f) == val {
        fb
    } else if val {
        fb + w
    } else {
        fb - w
    }
}

pub fn pack_flags(z: bool, n: bool, h: bool, c: bool) -> (fb: u8)
    ensures
        fb == spec_pack_flags(z, n, h, c),
        fb % 16 == 0,
{
    let zb: u8 = if z { 128 } else { 0 };
    let nb: u8 = if n { 64 } else { 0 };
    let hb: u8 = if h { 32 } else { 0 };
    let cb: u8 = if c { 16 } else { 0 };
    zb + nb + hb + cb
}

pub fn add_u8(a: u8, val: u8, carry: bool) -> (out: AluOut)
    ensures
        out == spec_add(a, val, carry),
        out.flags % 16 == 0,
{
    let c: u8 = if carry { 1 } else { 0 };
    let result1 = a.wrapping_add(val);
    let carry1 = result1 < a;
    let h_check1 = check_h_carry_u8(a, val);
    let result2 = result1.wrapping_add(c);
    let carry2 = result2 < result1;
    let h_check2 = check_h_carry_u8(result1, c);
    AluOut { value: result2, flags: pack_flags(result2 == 0, false, h_check1 || h_check2, carry1 || carry2) }
}

pub fn sub_u8(a: u8, val: u8, carry: bool) -> (out: AluOut)
    ensures
        out == spec_sub(a, val, carry),
        out.flags % 16 == 0,
{
    let c: u8 = if carry { 1 } else { 0 };
    let result1 = a.wrapping_sub(val);
    let borrow1 = a < val;
    let check_h1 = check_h_borrow_u8(a, val);
    let result2 = result1.wrapping_sub(c);
    let borrow2 = result1 < c;
    let check_h2 = check_h_borrow_u8(result1, c);
    AluOut { value: result2, flags: pack_flags(result2 == 0, true, check_h1 || check_h2, borrow1 || borrow2) }
}

pub fn and_u8(a: u8, val: u8) -> (out: AluOut)
    ensures
        out == spec_and(a, val),
        out.flags % 16 == 0,
{
    let value = a & val;
    AluOut { value, flags: pack_flags(value == 0, false, true, false) }
}

pub fn or_u8(a: u8, val: u8) -> (out: AluOut)
    ensures
        out == spec_or(a, val),
        out.flags % 16 == 0,
{
    let value = a | val;
    AluOut { value, flags: pack_flags(value == 0, false, false, false) }
}

pub fn xor_u8(a: u8, val: u8) -> (out: AluOut)
    ensures
        out == spec_xor(a, val),
        out.flags % 16 == 0,
{
    let value = a ^ val;
    AluOut { value, flags: pack_flags(value == 0, false, false, false) }
}

pub fn inc_u8(val: u8, c: bool) -> (out: AluOut)
    ensures
        out == spec_inc(val, c),
        out.flags % 16 == 0,
{
    let value = val.wrapping_add(1);
    AluOut { value, flags: pack_flags(value == 0, false, check_h_carry_u8(val, 1), c) }
}

pub fn dec_u8(val: u8, c: bool) -> (out: AluOut)
    ensures
        out == spec_dec(val, c),
        out.flags % 16 == 0,
{
    let value = val.wrapping_sub(1);
    AluOut { value, flags: pack_flags(value == 0, true, check_h_borrow_u8(val, 1), c) }
}

pub fn add_u16(target: u16, source: u16, z: bool) -> (out: AluOut16)
    ensures
        out == spec_add_16(target, source, z),
        out.flags % 16 == 0,
{
    let value = target.wrapping_add(source);
    AluOut16 { value, flags: pack_flags(z, false, check_h_carry_u16(target, source), value < target) }
}

pub fn add_signed(sp: u16, offset: u8) -> (out: AluOut16)
    ensures
        out == spec_add_signed(sp, offset),
        out.flags % 16 == 0,
{
    let h = sp % 16 + (offset as u16) % 16 > 15;
    let c = sp % 256 + (offset as u16) > 255;
    let value = if offset < 128 {
        sp.wrapping_add(offset as u16)
    } else {
        sp.wrapping_sub(256 - (offset as u16))
    };
    proof {
        let sum = sp + spec_signed(offset);
        if sum < 0 {
            assert(sum % 0x10000 == sum + 0x10000);
        } else if sum >= 0x10000 {
            assert(sum % 0x10000 == sum - 0x10000);
        } else {
            assert(sum % 0x10000 == sum);
        }
    }
    AluOut16 { value, flags: pack_flags(false, false, h, c) }
}

pub fn daa(a: u8, n: bool, h: bool, c: bool) -> (out: AluOut)
    ensures
        out == spec_daa(a, n, h, c),
        out.flags % 16 == 0,
{
    let mut value = a;
    let mut carry = c;
    if !n {
        if c || value > 0x99 {
            value = value.wrapping_add(0x60);
            carry = true;
        }
        if h || value % 16 > 0x09 {
            value = value.wrapping_add(0x06);
        }
    } else {
        if c {
            value = value.wrapping_sub(0x60);
        }
        if h {
            value = value.wrapping_sub(0x06);
        }
    }
    AluOut { value, flags: pack_flags(value == 0, n, false, carry) }
}

pub fn rot_left(byte: u8, carry: bool, c: bool) -> (out: AluOut)
    ensures
        out == spec_rot_left(byte, carry, c),
        out.flags % 16 == 0,
{
    let low: u8 = if carry {
        if c { 1 } else { 0 }
    } else {
        byte / 128
    };
    let value = (byte % 128) * 2 + low;
    AluOut { value, flags: pack_flags(value == 0, false, false, byte >= 128) }
}

pub fn rot_right(byte: u8, carry: bool, c: bool) -> (out: AluOut)
    ensures
        out == spec_rot_right(byte, carry, c),
        out.flags % 16 == 0,
{
    let high: u8 = if carry {
        if c { 1 } else { 0 }
    } else {
        byte % 2
    };
    let value = byte / 2 + high * 128;
    AluOut { value, flags: pack_flags(value == 0, false, false, byte % 2 == 1) }
}

pub fn shift_left(byte: u8) -> (out: AluOut)
    ensures
        out == spec_shift_left(byte),
        out.flags % 16 == 0,
{
    let value = (byte % 128) * 2;
    AluOut { value, flags: pack_flags(value == 0, false, false, byte >= 128) }
}

pub fn shift_right(byte: u8, arith: bool) -> (out: AluOut)
    ensures
        out == spec_shift_right(byte, arith),
        out.flags % 16 == 0,
{
    let top: u8 = if arith { (byte / 128) * 128 } else { 0 };
    let value = byte / 2 + top;
    AluOut { value, flags: pack_flags(value == 0, false, false, byte % 2 == 1) }
}

pub fn swap(byte: u8) -> (out: AluOut)
    ensures
        out == spec_swap(byte),
        out.flags % 16 == 0,
{
    let value = (byte % 16) * 16 + byte / 16;
    AluOut { value, flags: pack_flags(value == 0, false, false, false) }
}

/// One of the eight operations of the accumulator.
pub fn alu(kind: u8, a: u8, val: u8, c: bool) -> (out: AluOut)
    ensures
        out == spec_alu(kind, a, val, c),
        out.flags % 16 == 0,
{
    match kind {
        0 => add_u8(a, val, false),
        1 => add_u8(a, val, c),
        2 => sub_u8(a, val, false),
        3 => sub_u8(a, val, c),
        4 => and_u8(a, val),
        5 => xor_u8(a, val),
        6 => or_u8(a, val),
        _ => AluOut { value: a, flags: sub_u8(a, val, false).flags },
    }
}

/// One of the eight rotations and shifts.
pub fn shift(kind: u8, byte: u8, c: bool) -> (out: AluOut)
    ensures
        out == spec_shift(kind, byte, c),
        out.flags % 16 == 0,
{
    match kind {
        0 => rot_left(byte, false, c),
        1 => rot_right(byte, false, c),
        2 => rot_left(byte, true, c),
        3 => rot_right(byte, true, c),
        4 => shift_left(byte),
        5 => shift_right(byte, true),
        6 => swap(byte),
        _ => shift_right(byte, false),
    }
}

/// A packed flag byte gives back the four flags it was made of, and its
/// low four bits are zero.
pub proof fn lemma_pack_flags(z: bool, n: bool, h: bool, c: bool)
    ensures
        spec_flag_of(spec_pack_flags(z, n, h, c), Flags::Z) == z,
        spec_flag_of(spec_pack_flags(z, n, h, c), Flags::N) == n,
        spec_flag_of(spec_pack_flags(z, n, h, c), Flags::H) == h,
        spec_flag_of(spec_pack_flags(z, n, h, c), Flags::C) == c,
        spec_pack_flags(z, n, h, c) % 16 == 0,
{
}

/// Adding the weight of a clear flag bit, or taking off that of a set
/// one, changes that bit and no other.
proof fn lemma_flag_bits(fb: u8, w: u8, v: u8)
    by (bit_vector)
    requires
        w == 128 || w == 64 || w == 32 || w == 16,
        v == 128 || v == 64 || v == 32 || v == 16,
    ensures
        (fb / w) % 2 == 0 ==> fb + w < 256 && ((((fb + w) as u8) / v) % 2 == 1) == (v == w || (fb / v) % 2 == 1)
            && ((fb + w) as u8) % 16 == fb % 16,
        (fb / w) % 2 == 1 ==> fb >= w && ((((fb - w) as u8) / v) % 2 == 1) == (v != w && (fb / v) % 2 == 1)
            && ((fb - w) as u8) % 16 == fb % 16,
{
}

/// Writing a flag sets that flag to the value written and changes
/// neither another flag nor the low four bits.
pub proof fn lemma_with_flag(fb: u8, f: Flags, val: bool, g: Flags)
    ensures
        spec_flag_of(spec_with_flag(fb, f, val), g) == (if g == f { val } else { spec_flag_of(fb, g) }),
        spec_with_flag(fb, f, val) % 16 == fb % 16,
{
    let w = spec_flag_weight(f);
    let v = spec_flag_weight(g);
    lemma_flag_bits(fb, w, v);
    assert(spec_flag_of(fb, f) == ((fb / w) % 2 == 1));
    assert(spec_flag_of(fb, g) == ((fb / v) % 2 == 1));
    let r = spec_with_flag(fb, f, val);
    assert(spec_flag_of(r, g) == ((r / v) % 2 == 1));
}

/// The flags of the accumulator operations, for every pair of operands:
///
/// | Operation | Z          | N | H                        | C            |
/// |-----------|------------|---|--------------------------|--------------|
/// | ADD       | result = 0 | 0 | low digits add up `> 15` | sum `> 255`  |
/// | SUB, CP   | result = 0 | 1 | low digit of `a` smaller | `a` smaller  |
/// | AND       | result = 0 | 0 | 1                        | 0            |
/// | OR, XOR   | result = 0 | 0 | 0                        | 0            |
///
/// CP leaves the accumulator as it was.
pub proof fn lemma_alu_flags(a: u8, val: u8, c: bool)
    ensures
        spec_alu(0, a, val, c).value == (a + val) % 256,
        spec_alu(0, a, val, c).flags == spec_pack_flags(
            (a + val) % 256 == 0,
            false,
            a % 16 + val % 16 > 15,
            a + val > 255,
        ),
        spec_alu(2, a, val, c).value == (a - val) % 256,
        spec_alu(2, a, val, c).flags == spec_pack_flags(a == val, true, a % 16 < val % 16, a < val),
        spec_alu(7, a, val, c).value == a,
        spec_alu(7, a, val, c).flags == spec_alu(2, a, val, c).flags,
        spec_alu(4, a, val, c) == (AluOut { value: a & val, flags: spec_pack_flags(a & val == 0, false, true, false) }),
        spec_alu(5, a, val, c) == (AluOut { value: a ^ val, flags: spec_pack_flags(a ^ val == 0, false, false, false) }),
        spec_alu(6, a, val, c) == (AluOut { value: a | val, flags: spec_pack_flags(a | val == 0, false, false, false) }),
{
}

/// The number that a byte of two decimal digits stands for.
pub open spec fn spec_decimal(byte: u8) -> int {
    (byte / 16) * 10 + byte % 16
}

/// Whether both halves of a byte are decimal digits.
pub open spec fn spec_is_decimal(byte: u8) -> bool {
    byte / 16 <= 9 && byte % 16 <= 9
}

/// The adjustment after an addition, on bytes.
spec fn spec_adjusted(sum: u8, h: bool, c: bool) -> u8 {
    let high = if c || sum > 0x99 {
        (sum + 0x60) as u8
    } else {
        sum
    };
    if h || high % 16 > 9 {
        (high + 0x06) as u8
    } else {
        high
    }
}

proof fn lemma_adjusted_sum(x: u8, y: u8)
    by (bit_vector)
    requires
        x / 16 <= 9 && x % 16 <= 9,
        y / 16 <= 9 && y % 16 <= 9,
    ensures
        spec_adjusted((x + y) as u8, x % 16 + y % 16 > 15, x + y > 255) / 16 <= 9,
        spec_adjusted((x + y) as u8, x % 16 + y % 16 > 15, x + y > 255) % 16 <= 9,
        (spec_adjusted((x + y) as u8, x % 16 + y % 16 > 15, x + y > 255) / 16) * 10 + spec_adjusted(
            (x + y) as u8,
            x % 16 + y % 16 > 15,
            x + y > 255,
        ) % 16 == ((x / 16) * 10 + x % 16 + (y / 16) * 10 + y % 16) % 100,
        (x + y > 255 || (x + y) as u8 > 0x99) == ((x / 16) * 10 + x % 16 + (y / 16) * 10 + y % 16 >= 100),
{
}

/// The low eight bits of a sum of two bytes.
proof fn lemma_truncated_sum(a: u8, b: u8)
    by (bit_vector)
    ensures
        a + b < 256 ==> (a + b) as u8 == a + b,
        a + b >= 256 ==> (a + b) as u8 == a + b - 256,
{
}

/// Adding two packed decimal numbers and adjusting the sum gives the
/// packed decimal sum: its two low digits in the result, and C set
/// exactly if it has a third.
pub proof fn lemma_daa_after_add(x: u8, y: u8)
    requires
        spec_is_decimal(x),
        spec_is_decimal(y),
    ensures
        ({
            let sum = spec_add(x, y, false);
            let adjusted = spec_daa(
                sum.value,
                false,
                spec_flag_of(sum.flags, Flags::H),
                spec_flag_of(sum.flags, Flags::C),
            );
            &&& spec_is_decimal(adjusted.value)
            &&& spec_decimal(adjusted.value) == (spec_decimal(x) + spec_decimal(y)) % 100
            &&& spec_flag_of(adjusted.flags, Flags::C) == (spec_decimal(x) + spec_decimal(y) >= 100)
        }),
{
    let h = x % 16 + y % 16 > 15;
    let c = x + y > 255;
    let sum = spec_add(x, y, false);
    lemma_pack_flags((x + y) % 256 == 0, false, h, c);
    lemma_truncated_sum(x, y);
    let v = sum.value;
    assert(v == (x + y) as u8);
    let high: u8 = if c || v > 0x99 { (v + 0x60) as u8 } else { v };
    lemma_truncated_sum(v, 0x60);
    lemma_truncated_sum(high, 0x06);
    assert(high == (if c || v > 0x99 { (v + 0x60) % 256 } else { v as int }));
    let adjusted = spec_daa(v, false, h, c);
    assert(adjusted.value == spec_adjusted(v, h, c));
    lemma_pack_flags(adjusted.value == 0, false, false, c || v > 0x99);
    lemma_adjusted_sum(x, y);
}

} // verus!
