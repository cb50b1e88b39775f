//! The interrupt controller: the request register at $FF0F and the enable
//! register at $FFFF. Five sources have a bit in each; among several
//! pending ones the lowest bit is served first.

use vstd::prelude::*;
use crate::utils::clear_bit;
use crate::utils::get_bit;
use crate::utils::lemma_bit_write_read;
use crate::utils::set_bit;
use crate::utils::spec_bit;
use crate::utils::spec_with_bit;

verus! {

/// The request register.
pub const IF: u16 = 0xFF0F;

/// The enable register.
pub const IE: u16 = 0xFFFF;

/// Number of interrupt sources.
pub const SOURCES: u8 = 5;

/// The sources, from the one served first.
#[derive(Clone, Copy, PartialEq, Eq, Structural, Debug)]
pub enum Interrupt {
    VBlank,
    Stat,
    Timer,
    Serial,
    Joypad,
}

impl Interrupt {
    /// The source's bit in both registers.
    pub open spec fn spec_bit_index(self) -> u8 {
        match self {
            Interrupt::VBlank => 0,
            Interrupt::Stat => 1,
            Interrupt::Timer => 2,
            Interrupt::Serial => 3,
            Interrupt::Joypad => 4,
        }
    }

    pub fn bit_index(&self) -> (index: u8)
        ensures
            index == self.spec_bit_index(),
            index < SOURCES,
    {
        match self {
            Interrupt::VBlank => 0,
            Interrupt::Stat => 1,
            Interrupt::Timer => 2,
            Interrupt::Serial => 3,
            Interrupt::Joypad => 4,
        }
    }
}

/// Address that serving the source with bit `index` jumps to.
pub open spec fn spec_vector(index: u8) -> u16 {
    (0x40 + 8 * index) as u16
}

pub struct Interrupts {
    /// Requests; only the low five bits are read.
    pub flag: u8,
    /// Which sources may interrupt.
    pub enable: u8,
}

impl Interrupts {
    /// Whether the source with bit `index` is requested and enabled.
    pub open spec fn spec_is_pending(self, index: u8) -> bool {
        index < SOURCES && spec_bit(self.flag, index) && spec_bit(self.enable, index)
    }

    /// The lowest pending bit from `from` on, or `SOURCES` if there is
    /// none.
    pub open spec fn spec_first_pending(self, from: u8) -> u8
        decreases SOURCES - from,
    {
        if from >= SOURCES {
            SOURCES
        } else if self.spec_is_pending(from) {
            from
        } else {
            self.spec_first_pending((from + 1) as u8)
        }
    }

    /// Whether any source is pending.
    pub open spec fn spec_any_pending(self) -> bool {
        self.spec_first_pending(0) < SOURCES
    }

    /// What a read of the request register returns: the three upper
    /// bits read as set.
    pub open spec fn spec_read_flag(self) -> u8 {
        (0xE0 + self.flag % 32) as u8
    }

    pub open spec fn spec_write_flag(self, val: u8) -> Interrupts {
        Interrupts { flag: val % 32, ..self }
    }

    pub open spec fn spec_write_enable(self, val: u8) -> Interrupts {
        Interrupts { enable: val, ..self }
    }

    /// The controller with the source's request bit set if `raise`
    /// holds, else unchanged.
    pub open spec fn spec_request_if(self, raise: bool, source: Interrupt) -> Interrupts {
        if raise {
            Interrupts { flag: spec_with_bit(self.flag, source.spec_bit_index(), true), ..self }
        } else {
            self
        }
    }

    /// The controller with the request bit `index` cleared.
    pub open spec fn spec_acknowledge(self, index: u8) -> Interrupts {
        Interrupts { flag: spec_with_bit(self.flag, index, false), ..self }
    }

    pub fn new() -> (ints: Interrupts)
        ensures
            ints == (Interrupts { flag: 0, enable: 0 }),
    {
        Interrupts { flag: 0, enable: 0 }
    }

    pub fn read_flag(&self) -> (val: u8)
        ensures
            val == self.spec_read_flag(),
    {
        0xE0 + self.flag % 32
    }

    pub fn write_flag(&mut self, val: u8)
        ensures
            *final(self) == old(self).spec_write_flag(val),
    {
        self.flag = val % 32;
    }

    pub fn write_enable(&mut self, val: u8)
        ensures
            *final(self) == old(self).spec_write_enable(val),
    {
        self.enable = val;
    }

    /// Requests the source's interrupt if `raise` holds.
    pub fn request_if(&mut self, raise: bool, source: Interrupt)
        ensures
            *final(self) == old(self).spec_request_if(raise, source),
    {
        if raise {
            self.flag = set_bit(self.flag, source.bit_index());
        }
    }

    /// The pending source that is served first, by its bit; `SOURCES`
    /// if none is pending.
    pub fn first_pending(&self) -> (index: u8)
        ensures
            index == self.spec_first_pending(0),
            index <= SOURCES,
            index < SOURCES ==> self.spec_is_pending(index),
    {
        let mut index: u8 = 0;
        while index < SOURCES && !(get_bit(self.flag, index) && get_bit(self.enable, index))
            invariant
                index <= SOURCES,
                self.spec_first_pending(index) == self.spec_first_pending(0),
            decreases SOURCES - index,
        {
            index = index + 1;
        }
        index
    }

    /// Clears the request bit `index`.
    pub fn acknowledge(&mut self, index: u8)
        requires
            index < SOURCES,
        ensures
            *final(self) == old(self).spec_acknowledge(index),
    {
        self.flag = clear_bit(self.flag, index);
    }
}

/// The source served first is pending, and no source with a lower bit is.
pub proof fn lemma_first_pending_is_lowest(ints: Interrupts, from: u8, lower: u8)
    requires
        from <= lower < ints.spec_first_pending(from),
    ensures
        !ints.spec_is_pending(lower),
        ints.spec_first_pending(from) < SOURCES ==> ints.spec_is_pending(ints.spec_first_pending(from)),
    decreases SOURCES - from,
{
    if from < SOURCES && !ints.spec_is_pending(from) {
        if lower > from {
            lemma_first_pending_is_lowest(ints, (from + 1) as u8, lower);
        } else {
            lemma_first_pending_bounds(ints, (from + 1) as u8);
        }
    }
}

pub proof fn lemma_first_pending_bounds(ints: Interrupts, from: u8)
    ensures
        from <= ints.spec_first_pending(from) || ints.spec_first_pending(from) == SOURCES,
        ints.spec_first_pending(from) <= SOURCES,
        ints.spec_first_pending(from) < SOURCES ==> ints.spec_is_pending(ints.spec_first_pending(from)),
    decreases SOURCES - from,
{
    if from < SOURCES && !ints.spec_is_pending(from) {
        lemma_first_pending_bounds(ints, (from + 1) as u8);
    }
}

/// Acknowledging a source clears its request and leaves the requests of
/// the other sources as they were.
pub proof fn lemma_acknowledge_clears_one(ints: Interrupts, index: u8, other: u8)
    requires
        index < SOURCES,
        other < SOURCES,
    ensures
        !ints.spec_acknowledge(index).spec_is_pending(index),
        other != index ==> ints.spec_acknowledge(index).spec_is_pending(other) == ints.spec_is_pending(other),
{
    lemma_bit_write_read(ints.flag, index, false, index);
    lemma_bit_write_read(ints.flag, index, false, other);
}

} // verus!
