//! Bit and byte helpers shared by every unit of the machine.

use vstd::prelude::*;
use vstd::string::StrSliceExecFns;

verus! {

/// Width of the visible screen, in pixels.
pub const SCREEN_WIDTH: usize = 160;

/// Height of the visible screen, in pixels.
pub const SCREEN_HEIGHT: usize = 144;

/// Edge of a tile, in pixels.
pub const TILESIZE: usize = 8;

/// Bytes of one RGBA pixel.
pub const COLOR_CHANNELS: usize = 4;

/// Pixels of one frame.
pub const FRAME_SIZE: usize = 23040;

/// Bytes of one frame once every pixel is RGBA.
pub const DISP_SIZE: usize = 92160;

/// The hardware generation a piece of OAM data is decoded for.
#[derive(Clone, Copy, PartialEq, Eq, Structural, Debug)]
pub enum GB {
    DMG,
    CGB,
}

/// A pair of 8-bit screen or map coordinates.
#[derive(Clone, Copy, PartialEq, Eq, Structural, Debug)]
pub struct Point {
    pub x: u8,
    pub y: u8,
}

impl Point {
    pub fn new(x: u8, y: u8) -> (p: Point)
        ensures
            p == (Point { x, y }),
    {
        Point { x, y }
    }
}

/// Bit `n` of `byte`, bit 0 being the least significant.
pub open spec fn spec_bit(byte: u8, n: u8) -> bool {
    byte & (1u8 << n) != 0
}

/// `byte` with bit `n` forced to `val`.
pub open spec fn spec_with_bit(byte: u8, n: u8, val: bool) -> u8 {
    if val {
        byte | (1u8 << n)
    } else {
        byte & !(1u8 << n)
    }
}

/// The 16-bit word whose upper byte is `high` and whose lower byte is `low`.
pub open spec fn spec_merge_bytes(high: u8, low: u8) -> u16 {
    (high as int * 256 + low as int) as u16
}

/// Upper byte of a word.
pub open spec fn spec_high_byte(word: u16) -> u8 {
    (word / 256) as u8
}

/// Lower byte of a word.
pub open spec fn spec_low_byte(word: u16) -> u8 {
    (word % 256) as u8
}

/// Carry out of bit 3 when adding two bytes.
pub open spec fn spec_h_carry_u8(a: u8, b: u8) -> bool {
    (a % 16) + (b % 16) > 15
}

/// Carry out of bit 11 when adding two words.
pub open spec fn spec_h_carry_u16(a: u16, b: u16) -> bool {
    (a % 4096) + (b % 4096) > 4095
}

/// Borrow into bit 3 when subtracting `b` from `a`.
pub open spec fn spec_h_borrow_u8(a: u8, b: u8) -> bool {
    (a % 16) < (b % 16)
}

/// The 2-bit field number `i` of a palette register, field 0 being bits 1-0.
pub open spec fn spec_palette_entry(pal: u8, i: int) -> u8 {
    if i == 0 {
        pal & 3
    } else if i == 1 {
        (pal >> 2) & 3
    } else if i == 2 {
        (pal >> 4) & 3
    } else {
        (pal >> 6) & 3
    }
}

/// Colour index of the pixel that bit `bit` of a tile row's two bytes holds.
pub open spec fn spec_tile_pixel(low: u8, high: u8, bit: u8) -> u8 {
    ((if spec_bit(high, bit) { 2int } else { 0int }) + (if spec_bit(low, bit) { 1int } else { 0int })) as u8
}

pub proof fn lemma_low_nibble(a: u8)
    ensures
        a & 0x0F == a % 16,
        a & 0xF0 == (a / 16) * 16,
        a >> 4 == a / 16,
{
    assert(a & 0x0F == a % 16 && a & 0xF0 == (a / 16) * 16 && a >> 4 == a / 16) by (bit_vector);
}

pub proof fn lemma_low_12_bits(a: u16)
    ensures
        a & 0x0FFF == a % 4096,
{
    assert(a & 0x0FFF == a % 4096) by (bit_vector);
}

pub proof fn lemma_two_bit_mask(a: u8)
    ensures
        a & 3 < 4,
        (a >> 2) & 3 < 4,
        (a >> 4) & 3 < 4,
        (a >> 6) & 3 < 4,
{
    assert(a & 3 < 4 && (a >> 2) & 3 < 4 && (a >> 4) & 3 < 4 && (a >> 6) & 3 < 4) by (bit_vector);
}

/// Every field of a palette register is a 2-bit colour.
pub proof fn lemma_palette_entry_bound(pal: u8, i: int)
    ensures
        spec_palette_entry(pal, i) < 4,
{
    lemma_two_bit_mask(pal);
}

/// Writing a bit and reading any bit back: the written bit holds the new
/// value, every other bit is unchanged.
pub proof fn lemma_bit_write_read(byte: u8, n: u8, val: bool, m: u8)
    requires
        n < 8,
        m < 8,
    ensures
        spec_bit(spec_with_bit(byte, n, val), m) == (if m == n { val } else { spec_bit(byte, m) }),
{
    assert(((byte | (1u8 << n)) & (1u8 << m) != 0) == (m == n || byte & (1u8 << m) != 0))
        by (bit_vector)
        requires
            n < 8,
            m < 8,
    ;
    assert(((byte & !(1u8 << n)) & (1u8 << m) != 0) == (m != n && byte & (1u8 << m) != 0))
        by (bit_vector)
        requires
            n < 8,
            m < 8,
    ;
}

pub fn get_bit(byte: u8, n: u8) -> (b: bool)
    requires
        n < 8,
    ensures
        b == spec_bit(byte, n),
{
    byte & (1u8 << n) != 0
}

pub fn set_bit(byte: u8, n: u8) -> (r: u8)
    requires
        n < 8,
    ensures
        r == spec_with_bit(byte, n, true),
{
    byte | (1u8 << n)
}

pub fn clear_bit(byte: u8, n: u8) -> (r: u8)
    requires
        n < 8,
    ensures
        r == spec_with_bit(byte, n, false),
{
    byte & !(1u8 << n)
}

pub fn write_bit(byte: u8, n: u8, val: bool) -> (r: u8)
    requires
        n < 8,
    ensures
        r == spec_with_bit(byte, n, val),
{
    if val {
        set_bit(byte, n)
    } else {
        clear_bit(byte, n)
    }
}

pub fn merge_bytes(high: u8, low: u8) -> (word: u16)
    ensures
        word == spec_merge_bytes(high, low),
{
    (high as u16) * 256 + (low as u16)
}

/// Access to the two halves of a 16-bit word.
pub trait ModifyBytes: Sized {
    spec fn spec_high(&self) -> u8;

    spec fn spec_low(&self) -> u8;

    fn get_high_byte(&self) -> (b: u8)
        ensures
            b == self.spec_high(),
    ;

    fn get_low_byte(&self) -> (b: u8)
        ensures
            b == self.spec_low(),
    ;
}

impl ModifyBytes for u16 {
    open spec fn spec_high(&self) -> u8 {
        spec_high_byte(*self)
    }

    open spec fn spec_low(&self) -> u8 {
        spec_low_byte(*self)
    }

    fn get_high_byte(&self) -> (b: u8) {
        (*self / 256) as u8
    }

    fn get_low_byte(&self) -> (b: u8) {
        (*self % 256) as u8
    }
}

/// Splitting a merged pair gives the pair back, and merging the halves of
/// a word gives the word back.
pub proof fn lemma_merge_split(high: u8, low: u8, word: u16)
    ensures
        spec_high_byte(spec_merge_bytes(high, low)) == high,
        spec_low_byte(spec_merge_bytes(high, low)) == low,
        spec_merge_bytes(spec_high_byte(word), spec_low_byte(word)) == word,
{
}

pub fn check_h_carry_u8(a: u8, b: u8) -> (carry: bool)
    ensures
        carry == spec_h_carry_u8(a, b),
{
    proof {
        lemma_low_nibble(a);
        lemma_low_nibble(b);
    }
    (a & 0x0F) + (b & 0x0F) > 0x0F
}

pub fn check_h_carry_u16(a: u16, b: u16) -> (carry: bool)
    ensures
        carry == spec_h_carry_u16(a, b),
{
    proof {
        lemma_low_12_bits(a);
        lemma_low_12_bits(b);
    }
    (a & 0x0FFF) + (b & 0x0FFF) > 0x0FFF
}

pub fn check_h_borrow_u8(a: u8, b: u8) -> (borrow: bool)
    ensures
        borrow == spec_h_borrow_u8(a, b),
{
    proof {
        lemma_low_nibble(a);
        lemma_low_nibble(b);
    }
    (a & 0x0F) < (b & 0x0F)
}

/// Splits a palette register into its four 2-bit colours, field 0 first.
pub fn unpack_u8(pal: u8) -> (colors: [u8; 4])
    ensures
        forall|i: int| 0 <= i < 4 ==> colors[i] == #[trigger] spec_palette_entry(pal, i),
        forall|i: int| 0 <= i < 4 ==> #[trigger] colors[i] < 4,
{
    proof {
        lemma_two_bit_mask(pal);
    }
    [pal & 3, (pal >> 2) & 3, (pal >> 4) & 3, (pal >> 6) & 3]
}

/// Decodes one pixel of a tile row from the row's two bytes.
pub fn tile_pixel(low: u8, high: u8, bit: u8) -> (color: u8)
    requires
        bit < 8,
    ensures
        color == spec_tile_pixel(low, high, bit),
        color < 4,
{
    let h: u8 = if get_bit(high, bit) { 2 } else { 0 };
    let l: u8 = if get_bit(low, bit) { 1 } else { 0 };
    h + l
}

/// A line of text without the line end that closes it: a line feed,
/// and the carriage return before it if there is one.
pub open spec fn spec_trim_newline(text: Seq<char>) -> Seq<char> {
    if text.len() > 0 && text.last() == '\n' {
        let line = text.drop_last();
        if line.len() > 0 && line.last() == '\r' {
            line.drop_last()
        } else {
            line
        }
    } else {
        text
    }
}

/// Takes the closing line end off a line of text.
pub fn trim_newline(s: &mut String)
    ensures
        final(s)@ == spec_trim_newline(old(s)@),
{
    let trimmed = {
        let text = s.as_str();
        let len = text.unicode_len();
        if len > 0 && text.get_char(len - 1) == '\n' {
            let end = if len > 1 && text.get_char(len - 2) == '\r' { len - 2 } else { len - 1 };
            Some(text.substring_char(0, end).to_owned())
        } else {
            None
        }
    };
    match trimmed {
        Some(line) => {
            *s = line;
        },
        None => {},
    }
}

} // verus!
