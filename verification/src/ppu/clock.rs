//! The dot clock of the picture unit: which scanline is being shown, how far
//! into it the beam is, and which of the four modes that puts the unit in.

use vstd::prelude::*;

verus! {

/// Dots spent scanning the sprite table at the start of a visible line.
pub const OAM_READ_LEN: usize = 80;

/// Dots spent drawing the pixels of a visible line.
pub const VRAM_READ_LEN: usize = 172;

/// Dots of horizontal blanking at the end of a visible line.
pub const HBLANK_LEN: usize = 204;

/// Dots of one line, visible or not.
pub const VBLANK_LEN: usize = 456;

/// First line of vertical blanking.
pub const VBLANK_LINE_START: u8 = 144;

/// Last line of vertical blanking, and of the frame.
pub const VBLANK_LINE_END: u8 = 153;

/// Dot of a visible line at which drawing ends and blanking starts.
pub const HBLANK_START: usize = 252;

/// Dots of one frame.
pub const FRAME_LEN: usize = 70224;

/// What the picture unit has to do once the clock has advanced.
#[derive(Clone, Copy, PartialEq, Eq, Structural, Debug)]
pub enum ClockResults {
    NoAction,
    RenderScanline,
    RenderFrame,
}

/// The four modes of the picture unit.
#[derive(Clone, Copy, PartialEq, Eq, Structural, Debug)]
pub enum ModeTypes {
    HBLANK,
    VBLANK,
    OAMReadMode,
    VRAMReadMode,
}

impl ModeTypes {
    /// The mode's number as the status register shows it.
    pub open spec fn spec_idx(self) -> u8 {
        match self {
            ModeTypes::HBLANK => 0,
            ModeTypes::VBLANK => 1,
            ModeTypes::OAMReadMode => 2,
            ModeTypes::VRAMReadMode => 3,
        }
    }

    pub fn get_idx(&self) -> (idx: u8)
        ensures
            idx == self.spec_idx(),
    {
        match *self {
            ModeTypes::HBLANK => 0,
            ModeTypes::VBLANK => 1,
            ModeTypes::OAMReadMode => 2,
            ModeTypes::VRAMReadMode => 3,
        }
    }
}

/// The mode that the unit is in at dot `dot` of line `line`.
pub open spec fn spec_mode_at(line: u8, dot: int) -> ModeTypes {
    if line >= VBLANK_LINE_START {
        ModeTypes::VBLANK
    } else if dot < OAM_READ_LEN {
        ModeTypes::OAMReadMode
    } else if dot < HBLANK_START {
        ModeTypes::VRAMReadMode
    } else {
        ModeTypes::HBLANK
    }
}

/// The stronger of two results: a frame outranks a scanline, which
/// outranks nothing.
pub open spec fn spec_stronger(a: ClockResults, b: ClockResults) -> ClockResults {
    if a == ClockResults::RenderFrame || b == ClockResults::RenderFrame {
        ClockResults::RenderFrame
    } else if a == ClockResults::RenderScanline || b == ClockResults::RenderScanline {
        ClockResults::RenderScanline
    } else {
        ClockResults::NoAction
    }
}

pub struct Clock {
    /// Dots elapsed in the current line.
    pub cycles: usize,
    /// The current line.
    pub line: u8,
    /// The current mode.
    pub mode: ModeTypes,
}

impl Clock {
    /// The clock is at a dot of a line of the frame, and its mode is that
    /// of the place.
    pub open spec fn wf(self) -> bool {
        &&& self.cycles < VBLANK_LEN
        &&& self.line <= VBLANK_LINE_END
        &&& self.mode == spec_mode_at(self.line, self.cycles as int)
    }

    /// Dots elapsed since the start of the frame.
    pub open spec fn position(self) -> int {
        self.line as int * VBLANK_LEN as int + self.cycles as int
    }

    /// The clock that stands at `pos` dots into the frame.
    pub open spec fn at(pos: int) -> Clock {
        Clock {
            cycles: (pos % 456) as usize,
            line: (pos / 456) as u8,
            mode: spec_mode_at((pos / 456) as u8, pos % 456),
        }
    }

    /// The clock one dot later.
    pub open spec fn spec_tick(self) -> Clock {
        let wrap = self.cycles + 1 == VBLANK_LEN;
        let cycles = if wrap { 0 } else { self.cycles + 1 };
        let line = if !wrap {
            self.line
        } else if self.line == VBLANK_LINE_END {
            0u8
        } else {
            (self.line + 1) as u8
        };
        Clock { cycles: cycles as usize, line, mode: spec_mode_at(line, cycles as int) }
    }

    /// What the dot that leads out of this state asks for: the frame when
    /// it enters vertical blanking, the scanline when it ends the drawing
    /// of a visible line.
    pub open spec fn spec_event(self) -> ClockResults {
        let next = self.spec_tick();
        if next.line == VBLANK_LINE_START && next.cycles == 0 {
            ClockResults::RenderFrame
        } else if next.line < VBLANK_LINE_START && next.cycles == HBLANK_START {
            ClockResults::RenderScanline
        } else {
            ClockResults::NoAction
        }
    }

    /// The clock `n` dots later.
    pub open spec fn spec_run(self, n: nat) -> Clock
        decreases n,
    {
        if n == 0 {
            self
        } else {
            self.spec_tick().spec_run((n - 1) as nat)
        }
    }

    /// The strongest result that any of the next `n` dots asks for.
    pub open spec fn spec_run_result(self, n: nat) -> ClockResults
        decreases n,
    {
        if n == 0 {
            ClockResults::NoAction
        } else {
            spec_stronger(self.spec_event(), self.spec_tick().spec_run_result((n - 1) as nat))
        }
    }

    /// How many of the next `n` dots enter vertical blanking.
    pub open spec fn spec_frames(self, n: nat) -> nat
        decreases n,
    {
        if n == 0 {
            0
        } else {
            (if self.spec_event() == ClockResults::RenderFrame { 1nat } else { 0nat })
                + self.spec_tick().spec_frames((n - 1) as nat)
        }
    }

    /// Dots from here to the next entry into vertical blanking, from 1 to
    /// the dots of a frame.
    pub open spec fn spec_dots_to_frame(self) -> int {
        if self.position() < 65664 {
            65664 - self.position()
        } else {
            65664 + FRAME_LEN - self.position()
        }
    }

    /// The clock with its line counter back at 0, the dot kept.
    pub open spec fn spec_reset_line(self) -> Clock {
        Clock { line: 0, mode: spec_mode_at(0, self.cycles as int), ..self }
    }

    /// A clock at the first dot of the first line.
    pub fn new() -> (clock: Clock)
        ensures
            clock == Clock::at(0),
            clock.wf(),
            clock.position() == 0,
    {
        Clock { cycles: 0, line: 0, mode: ModeTypes::OAMReadMode }
    }

    /// Whether the clock is at a place of the frame, in the mode of that
    /// place.
    pub fn is_wf(&self) -> (ok: bool)
        ensures
            ok == self.wf(),
    {
        self.cycles < VBLANK_LEN && self.line <= VBLANK_LINE_END && self.mode == Clock::mode_at(
            self.line,
            self.cycles,
        )
    }

    /// A clock at dot `dot` of line `line`.
    pub fn at_line(line: u8, dot: usize) -> (clock: Clock)
        requires
            line <= VBLANK_LINE_END,
            dot < VBLANK_LEN,
        ensures
            clock.wf(),
            clock.line == line,
            clock.cycles == dot,
    {
        Clock { cycles: dot, line, mode: Clock::mode_at(line, dot) }
    }

    fn mode_at(line: u8, dot: usize) -> (mode: ModeTypes)
        ensures
            mode == spec_mode_at(line, dot as int),
    {
        if line >= VBLANK_LINE_START {
            ModeTypes::VBLANK
        } else if dot < OAM_READ_LEN {
            ModeTypes::OAMReadMode
        } else if dot < HBLANK_START {
            ModeTypes::VRAMReadMode
        } else {
            ModeTypes::HBLANK
        }
    }

    /// Advances the clock by one dot.
    pub fn tick(&mut self) -> (result: ClockResults)
        requires
            old(self).wf(),
        ensures
            *final(self) == old(self).spec_tick(),
            result == old(self).spec_event(),
            final(self).wf(),
    {
        self.cycles = self.cycles + 1;
        if self.cycles == VBLANK_LEN {
            self.cycles = 0;
            if self.line == VBLANK_LINE_END {
                self.line = 0;
            } else {
                self.line = self.line + 1;
            }
        }
        self.mode = Clock::mode_at(self.line, self.cycles);
        if self.line == VBLANK_LINE_START && self.cycles == 0 {
            ClockResults::RenderFrame
        } else if self.line < VBLANK_LINE_START && self.cycles == HBLANK_START {
            ClockResults::RenderScanline
        } else {
            ClockResults::NoAction
        }
    }

    /// Advances the clock by `cycles` dots and reports the strongest
    /// result that any of them asked for.
    pub fn clock_step(&mut self, cycles: u8) -> (result: ClockResults)
        requires
            old(self).wf(),
        ensures
            *final(self) == old(self).spec_run(cycles as nat),
            result == old(self).spec_run_result(cycles as nat),
            final(self).wf(),
            final(self).position() == (old(self).position() + cycles) % (FRAME_LEN as int),
    {
        let mut result = ClockResults::NoAction;
        let mut left: u8 = cycles;
        proof {
            lemma_run_position(*self, cycles as nat);
        }
        while left > 0
            invariant
                self.wf(),
                self.spec_run(left as nat) == old(self).spec_run(cycles as nat),
                spec_stronger(result, self.spec_run_result(left as nat)) == old(self).spec_run_result(
                    cycles as nat,
                ),
            decreases left,
        {
            let r = self.tick();
            result = Clock::stronger(result, r);
            left = left - 1;
        }
        result
    }

    fn stronger(a: ClockResults, b: ClockResults) -> (r: ClockResults)
        ensures
            r == spec_stronger(a, b),
    {
        if a == ClockResults::RenderFrame || b == ClockResults::RenderFrame {
            ClockResults::RenderFrame
        } else if a == ClockResults::RenderScanline || b == ClockResults::RenderScanline {
            ClockResults::RenderScanline
        } else {
            ClockResults::NoAction
        }
    }

    /// The line being shown.
    pub fn get_scanline(&self) -> (line: u8)
        ensures
            line == self.line,
    {
        self.line
    }

    /// The mode the unit is in.
    pub fn get_mode(&self) -> (mode: ModeTypes)
        ensures
            mode == self.mode,
    {
        self.mode
    }

    /// Puts the line counter back to 0 and keeps the dot within the line.
    pub fn reset_line(&mut self)
        requires
            old(self).wf(),
        ensures
            *final(self) == old(self).spec_reset_line(),
            final(self).wf(),
    {
        self.line = 0;
        self.mode = Clock::mode_at(0, self.cycles);
    }

    /// Whether the unit is in vertical blanking.
    pub fn is_vblank_interrupt(&self) -> (vblank: bool)
        ensures
            vblank == (self.mode == ModeTypes::VBLANK),
    {
        self.mode == ModeTypes::VBLANK
    }
}

impl Default for Clock {
    fn default() -> (clock: Clock)
        ensures
            clock == Clock::at(0),
            clock.wf(),
    {
        Clock::new()
    }
}

/// A well-formed clock is the clock of its position.
pub proof fn lemma_clock_at_position(c: Clock)
    requires
        c.wf(),
    ensures
        0 <= c.position() < FRAME_LEN,
        Clock::at(c.position()) == c,
{
}

/// One dot moves the clock one position on, and the last position of the
/// frame leads to the first.
pub proof fn lemma_tick_position(c: Clock)
    requires
        c.wf(),
    ensures
        c.spec_tick().wf(),
        c.spec_tick().position() == (c.position() + 1) % (FRAME_LEN as int),
        (c.spec_event() == ClockResults::RenderFrame) == (c.position() + 1 == 65664),
{
}

/// `n` dots move the clock `n` positions on, around the frame.
pub proof fn lemma_run_position(c: Clock, n: nat)
    requires
        c.wf(),
    ensures
        c.spec_run(n).wf(),
        c.spec_run(n).position() == (c.position() + n) % (FRAME_LEN as int),
    decreases n,
{
    if n > 0 {
        lemma_tick_position(c);
        lemma_run_position(c.spec_tick(), (n - 1) as nat);
    }
}

/// The number of frames that `n` dots complete, in closed form: one for
/// each time the position passes the first dot of line 144.
pub proof fn lemma_frames_closed_form(c: Clock, n: nat)
    requires
        c.wf(),
    ensures
        c.spec_frames(n) == (c.position() + 4560 + n) / (FRAME_LEN as int) - (c.position() + 4560) / (
        FRAME_LEN as int),
    decreases n,
{
    if n > 0 {
        lemma_tick_position(c);
        lemma_frames_closed_form(c.spec_tick(), (n - 1) as nat);
    }
}

/// The clock enters vertical blanking within `n` dots exactly if `n` is
/// at least the distance to the entry; while it has not, the distance
/// has shrunk by the dots that have passed.
pub proof fn lemma_frame_distance(c: Clock, n: nat)
    requires
        c.wf(),
        n <= FRAME_LEN,
    ensures
        (c.spec_frames(n) > 0) == (n >= c.spec_dots_to_frame()),
        1 <= c.spec_dots_to_frame() <= FRAME_LEN,
        n < c.spec_dots_to_frame() ==> c.spec_run(n).spec_dots_to_frame() == c.spec_dots_to_frame() - n,
{
    lemma_frames_closed_form(c, n);
    lemma_run_position(c, n);
}

/// Running the clock for the length of one frame, from any place in the
/// frame, brings it back to that place, and enters vertical blanking
/// exactly once on the way.
pub proof fn lemma_one_frame_per_period(c: Clock)
    requires
        c.wf(),
    ensures
        c.spec_run(FRAME_LEN as nat) == c,
        c.spec_frames(FRAME_LEN as nat) == 1,
{
    lemma_run_position(c, FRAME_LEN as nat);
    lemma_frames_closed_form(c, FRAME_LEN as nat);
    lemma_clock_at_position(c);
    lemma_clock_at_position(c.spec_run(FRAME_LEN as nat));
}

/// From the start of a frame the line counter reaches every line from 0
/// to 153 in turn: `line * 456` dots in, the clock stands at the first
/// dot of line `line`.
pub proof fn lemma_lines_in_order(line: u8)
    requires
        line <= VBLANK_LINE_END,
    ensures
        Clock::at(0).spec_run((line as int * 456) as nat).line == line,
        Clock::at(0).spec_run((line as int * 456) as nat).cycles == 0,
{
    let c = Clock::at(0);
    let n = (line as int * 456) as nat;
    lemma_run_position(c, n);
    lemma_clock_at_position(c.spec_run(n));
}

} // verus!
