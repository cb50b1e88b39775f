//! The timer: a free-running 16-bit divider and a counter that is
//! clocked from one of the divider's bits.

use vstd::prelude::*;

verus! {

/// Divider register.
pub const DIV: u16 = 0xFF04;

/// Counter register.
pub const TIMA: u16 = 0xFF05;

/// Modulo register: what the counter restarts from.
pub const TMA: u16 = 0xFF06;

/// Control register.
pub const TAC: u16 = 0xFF07;

/// Where the divider stands when the boot program hands over to the
/// cartridge: it has been counting since power-on.
pub const DIV_RESET: u16 = 0xABCC;

/// Clock ticks between an overflow of the counter and its reload.
pub const TIMA_COOLDOWN_OVERFLOW: u8 = 4;

/// Weight of the divider bit that the two low bits of the control
/// register select: bit 9, 3, 5 or 7.
pub open spec fn spec_tima_period(tac: u8) -> u16 {
    if tac % 4 == 0 {
        512
    } else if tac % 4 == 1 {
        8
    } else if tac % 4 == 2 {
        32
    } else {
        128
    }
}

pub struct Timer {
    /// The divider; the register shows its upper byte.
    pub div: u16,
    pub tima: u8,
    pub tma: u8,
    pub tac: u8,
    /// Ticks left until the counter is reloaded; 0 when no reload is due.
    pub tima_cooldown: u8,
}

impl Timer {
    /// Whether bit 2 of the control register is set.
    pub open spec fn spec_enabled(self) -> bool {
        (self.tac / 4) % 2 == 1
    }

    /// The counter's clock input: the selected divider bit, gated by the
    /// enable bit.
    pub open spec fn spec_signal(self) -> bool {
        self.spec_enabled() && (self.div / spec_tima_period(self.tac)) % 2 == 1
    }

    /// The timer with its divider one tick further.
    pub open spec fn spec_advanced(self) -> Timer {
        Timer { div: if self.div == 0xFFFF { 0 } else { (self.div + 1) as u16 }, ..self }
    }

    /// The timer one clock tick later.
    ///
    /// A reload that is due counts down and, at its end, copies the modulo
    /// into the counter. Otherwise a falling edge of the clock input
    /// increments the counter; an overflow leaves it at zero and makes a
    /// reload due.
    pub open spec fn spec_tick(self) -> Timer {
        let next = self.spec_advanced();
        if self.tima_cooldown != 0 {
            if self.tima_cooldown == 1 {
                Timer { tima: self.tma, tima_cooldown: 0, ..next }
            } else {
                Timer { tima_cooldown: (self.tima_cooldown - 1) as u8, ..next }
            }
        } else if self.spec_signal() && !next.spec_signal() {
            if self.tima == 0xFF {
                Timer { tima: 0, tima_cooldown: TIMA_COOLDOWN_OVERFLOW, ..next }
            } else {
                Timer { tima: (self.tima + 1) as u8, ..next }
            }
        } else {
            next
        }
    }

    /// Whether the next tick reloads the counter and so requests the
    /// timer interrupt.
    pub open spec fn spec_tick_interrupts(self) -> bool {
        self.tima_cooldown == 1
    }

    /// The timer `n` clock ticks later.
    pub open spec fn spec_run(self, n: nat) -> Timer
        decreases n,
    {
        if n == 0 {
            self
        } else {
            self.spec_tick().spec_run((n - 1) as nat)
        }
    }

    /// Whether any of the next `n` ticks requests the interrupt.
    pub open spec fn spec_run_interrupts(self, n: nat) -> bool
        decreases n,
    {
        if n == 0 {
            false
        } else {
            self.spec_tick_interrupts() || self.spec_tick().spec_run_interrupts((n - 1) as nat)
        }
    }

    /// What a read of the register at `addr` returns.
    pub open spec fn spec_read(self, addr: u16) -> u8 {
        if addr == DIV {
            (self.div / 256) as u8
        } else if addr == TIMA {
            self.tima
        } else if addr == TMA {
            self.tma
        } else {
            self.tac
        }
    }

    /// The timer after `val` was written to the register at `addr`. Any
    /// write to the divider clears all 16 bits of it; a write to the
    /// counter also cancels a reload that is due.
    pub open spec fn spec_write(self, addr: u16, val: u8) -> Timer {
        if addr == DIV {
            Timer { div: 0, ..self }
        } else if addr == TIMA {
            Timer { tima: val, tima_cooldown: 0, ..self }
        } else if addr == TMA {
            Timer { tma: val, ..self }
        } else {
            Timer { tac: val, ..self }
        }
    }

    /// A timer in the state that the boot program leaves it in.
    pub fn new() -> (timer: Timer)
        ensures
            timer == (Timer { div: DIV_RESET, tima: 0, tma: 0, tac: 0, tima_cooldown: 0 }),
    {
        Timer { div: DIV_RESET, tima: 0, tma: 0, tac: 0, tima_cooldown: 0 }
    }

    pub fn get_tima_period(&self) -> (period: u16)
        ensures
            period == spec_tima_period(self.tac),
    {
        match self.tac % 4 {
            0 => 512,
            1 => 8,
            2 => 32,
            _ => 128,
        }
    }

    pub fn tima_tick(&self) -> (signal: bool)
        ensures
            signal == self.spec_signal(),
    {
        (self.tac / 4) % 2 == 1 && (self.div / self.get_tima_period()) % 2 == 1
    }

    /// Advances the timer by one clock tick; says whether the interrupt is
    /// requested.
    pub fn tick_once(&mut self) -> (interrupt: bool)
        ensures
            *final(self) == old(self).spec_tick(),
            interrupt == old(self).spec_tick_interrupts(),
    {
        let old_bit = self.tima_tick();
        self.div = self.div.wrapping_add(1);
        let new_bit = self.tima_tick();
        let mut interrupt = false;
        if self.tima_cooldown != 0 {
            self.tima_cooldown = self.tima_cooldown - 1;
            if self.tima_cooldown == 0 {
                self.tima = self.tma;
                interrupt = true;
            }
        } else if old_bit && !new_bit {
            if self.tima == 0xFF {
                self.tima = 0;
                self.tima_cooldown = TIMA_COOLDOWN_OVERFLOW;
            } else {
                self.tima = self.tima + 1;
            }
        }
        interrupt
    }

    /// Advances the timer by `m_cycles` machine cycles of four clock ticks
    /// each; says whether the interrupt was requested on the way.
    pub fn tick(&mut self, m_cycles: u8) -> (interrupt: bool)
        ensures
            *final(self) == old(self).spec_run(4 * m_cycles as nat),
            interrupt == old(self).spec_run_interrupts(4 * m_cycles as nat),
    {
        let mut interrupt = false;
        let mut left: u16 = 4 * (m_cycles as u16);
        while left > 0
            invariant
                self.spec_run(left as nat) == old(self).spec_run(4 * m_cycles as nat),
                (interrupt || self.spec_run_interrupts(left as nat)) == old(self).spec_run_interrupts(
                    4 * m_cycles as nat,
                ),
            decreases left,
        {
            let raised = self.tick_once();
            interrupt = interrupt || raised;
            left = left - 1;
        }
        interrupt
    }

    pub fn read_timer(&self, addr: u16) -> (val: u8)
        requires
            DIV <= addr <= TAC,
        ensures
            val == self.spec_read(addr),
    {
        if addr == DIV {
            (self.div / 256) as u8
        } else if addr == TIMA {
            self.tima
        } else if addr == TMA {
            self.tma
        } else {
            self.tac
        }
    }

    pub fn write_timer(&mut self, addr: u16, val: u8)
        requires
            DIV <= addr <= TAC,
        ensures
            *final(self) == old(self).spec_write(addr, val),
    {
        if addr == DIV {
            self.div = 0;
        } else if addr == TIMA {
            self.tima = val;
            self.tima_cooldown = 0;
        } else if addr == TMA {
            self.tma = val;
        } else {
            self.tac = val;
        }
    }
}

impl Default for Timer {
    fn default() -> (timer: Timer)
        ensures
            timer == (Timer { div: DIV_RESET, tima: 0, tma: 0, tac: 0, tima_cooldown: 0 }),
    {
        Timer::new()
    }
}

/// Whatever is written to the divider register, the next read of it
/// returns 0.
pub proof fn lemma_div_write_clears(timer: Timer, val: u8)
    ensures
        timer.spec_write(DIV, val).spec_read(DIV) == 0,
        timer.spec_write(DIV, val).div == 0,
{
}

/// The register shows the upper byte of the divider: it moves on by one
/// every 256 clock ticks.
pub proof fn lemma_div_counts_ticks(timer: Timer, n: nat)
    ensures
        timer.spec_run(n).div == (timer.div + n) % 0x10000,
    decreases n,
{
    if n > 0 {
        lemma_div_counts_ticks(timer.spec_tick(), (n - 1) as nat);
    }
}

/// The tick on which the counter overflows leaves it at 0, where it stays
/// for three more ticks; the tick after them reloads it from the modulo
/// and requests the interrupt.
pub proof fn lemma_overflow_reloads(timer: Timer)
    requires
        timer.tima == 0xFF,
        timer.tima_cooldown == 0,
        timer.spec_signal(),
        !timer.spec_advanced().spec_signal(),
    ensures
        timer.spec_run(1).tima == 0,
        timer.spec_run(2).tima == 0,
        timer.spec_run(3).tima == 0,
        timer.spec_run(4).tima == 0,
        !timer.spec_run_interrupts(4),
        timer.spec_run(5).tima == timer.tma,
        timer.spec_run_interrupts(5),
{
    reveal_with_fuel(Timer::spec_run, 6);
    reveal_with_fuel(Timer::spec_run_interrupts, 6);
}

} // verus!
