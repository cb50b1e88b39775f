//! The picture unit: video memory, the sprite table, the registers at
//! $FF40-$FF4B, and the scanline renderer that fills the frame buffer.

use vstd::prelude::*;
use vstd::array::spec_array_update;
use vstd::slice::slice_subrange;
use crate::ppu::clock::Clock;
use crate::ppu::clock::ClockResults;
use crate::ppu::clock::ModeTypes;
use crate::ppu::clock::HBLANK_START;
use crate::ppu::clock::VBLANK_LINE_START;
use crate::ppu::clock::VBLANK_LINE_END;
use crate::ppu::palette::Palette;
use crate::ppu::palette::spec_bg_pal;
use crate::ppu::sprite::Sprite;
use crate::utils::get_bit;
use crate::utils::spec_bit;
use crate::utils::spec_palette_entry;
use crate::utils::spec_tile_pixel;
use crate::utils::lemma_palette_entry_bound;
use crate::utils::tile_pixel;
use crate::utils::unpack_u8;
use crate::utils::Point;
use crate::utils::DISP_SIZE;
use crate::utils::FRAME_SIZE;
use crate::utils::GB;
use crate::utils::SCREEN_HEIGHT;
use crate::utils::SCREEN_WIDTH;

pub mod clock;
pub mod palette;
pub mod sprite;

verus! {

/// Tiles along one edge of a tile map.
pub const MAP_SIZE: usize = 32;

pub const VRAM_SIZE: usize = 0x2000;

pub const VRAM_START: u16 = 0x8000;

pub const VRAM_END: u16 = 0x9FFF;

pub const OAM_SPR_NUM: usize = 40;

pub const OAM_MEM: u16 = 0xFE00;

pub const OAM_MEM_END: u16 = 0xFE9F;

pub const TILE_SET: u16 = 0x8000;

pub const TILE_SET_END: u16 = 0x97FF;

/// Offset in video memory of the first tile map.
pub const TILE_MAP_0: usize = 0x1800;

/// Offset in video memory of the second tile map.
pub const TILE_MAP_1: usize = 0x1C00;

/// Most sprites that one scanline shows.
pub const LINE_SPR_NUM: usize = 10;

pub const LCDC: u16 = 0xFF40;

pub const STAT: u16 = 0xFF41;

pub const SCY: u16 = 0xFF42;

pub const SCX: u16 = 0xFF43;

pub const LY: u16 = 0xFF44;

pub const LYC: u16 = 0xFF45;

pub const BGP: u16 = 0xFF47;

pub const OBP0: u16 = 0xFF48;

pub const OBP1: u16 = 0xFF49;

pub const WY: u16 = 0xFF4A;

pub const WX: u16 = 0xFF4B;

/// What one or more dots of the picture unit ask of the rest of the machine.
#[derive(Clone, Copy, PartialEq, Eq, Structural, Debug)]
pub struct PpuEvents {
    /// The unit entered vertical blanking: the frame buffer holds a
    /// whole frame, and the vertical-blanking interrupt is requested.
    pub frame_ready: bool,
    /// The status interrupt is requested.
    pub stat_interrupt: bool,
}

impl PpuEvents {
    pub open spec fn spec_or(self, other: PpuEvents) -> PpuEvents {
        PpuEvents {
            frame_ready: self.frame_ready || other.frame_ready,
            stat_interrupt: self.stat_interrupt || other.stat_interrupt,
        }
    }

    pub open spec fn none() -> PpuEvents {
        PpuEvents { frame_ready: false, stat_interrupt: false }
    }
}

pub open spec fn spec_is_in_oam(addr: u16) -> bool {
    OAM_MEM <= addr <= OAM_MEM_END
}

pub open spec fn spec_is_in_vram(addr: u16) -> bool {
    VRAM_START <= addr <= VRAM_END
}

pub open spec fn spec_is_in_regs(addr: u16) -> bool {
    LCDC <= addr <= WX
}

/// The frame buffer `fb` with the first `n` pixels of `row` copied to
/// the places from `base` on.
pub open spec fn spec_blit(fb: [u8; FRAME_SIZE], base: int, row: Seq<u8>, n: int) -> [u8; FRAME_SIZE]
    decreases n,
{
    if n <= 0 {
        fb
    } else {
        spec_array_update(spec_blit(fb, base, row, n - 1), base + n - 1, row[n - 1])
    }
}

/// A blit changes the places it copies to and nothing else.
pub proof fn lemma_blit(fb: [u8; FRAME_SIZE], base: int, row: Seq<u8>, n: int, i: int)
    requires
        0 <= base,
        0 <= n,
        base + n <= FRAME_SIZE,
        0 <= i < FRAME_SIZE,
    ensures
        spec_blit(fb, base, row, n)[i] == (if base <= i < base + n {
            row[i - base]
        } else {
            fb[i]
        }),
    decreases n,
{
    if n > 0 {
        lemma_blit(fb, base, row, n - 1, i);
    }
}

pub struct PPU {
    /// Video memory, $8000-$9FFF.
    pub vram: [u8; VRAM_SIZE],
    /// The sprite table, $FE00-$FE9F, one entry for every four bytes.
    pub oam: [Sprite; OAM_SPR_NUM],
    /// The frame buffer: one 2-bit shade for each pixel, line after line.
    pub map_buffer: [u8; FRAME_SIZE],
    pub clock: Clock,
    /// Lines of the window drawn so far in this frame.
    pub window_line: u8,
    pub lcdc: u8,
    /// The status register as written; reads replace its low three bits.
    pub stat: u8,
    pub scy: u8,
    pub scx: u8,
    pub lyc: u8,
    pub bgp: u8,
    pub obp0: u8,
    pub obp1: u8,
    pub wy: u8,
    pub wx: u8,
    /// Colours that the host shows the shades in.
    pub palette: Palette,
}

impl PPU {
    pub open spec fn wf(self) -> bool {
        self.clock.wf()
    }

    // ---------------------------------------------------------------
    // Registers and memory
    // ---------------------------------------------------------------
    /// What a read of the status register returns: bit 7 set, bits 6-3 as
    /// written, bit 2 set while the line equals the compare register,
    /// bits 1-0 the mode.
    pub open spec fn spec_stat(self) -> u8 {
        (128 + (self.stat / 8) % 16 * 8 + (if self.clock.line == self.lyc { 4int } else { 0int })
            + self.clock.mode.spec_idx()) as u8
    }

    /// Whether the program may access `addr` now: the sprite table is shut
    /// while it is scanned and while pixels are drawn, video memory while
    /// pixels are drawn.
    pub open spec fn spec_is_valid_status(self, addr: u16) -> bool {
        match self.clock.mode {
            ModeTypes::OAMReadMode => !spec_is_in_oam(addr),
            ModeTypes::VRAMReadMode => !spec_is_in_oam(addr) && !spec_is_in_vram(addr),
            _ => true,
        }
    }

    /// The byte at `addr`, whatever the mode.
    #[verifier::opaque]
    pub open spec fn spec_peek(self, addr: u16) -> u8 {
        if spec_is_in_vram(addr) {
            self.vram[addr - VRAM_START]
        } else if spec_is_in_oam(addr) {
            self.oam[(addr - OAM_MEM) / 4].data[(addr - OAM_MEM) % 4]
        } else if addr == LCDC {
            self.lcdc
        } else if addr == STAT {
            self.spec_stat()
        } else if addr == SCY {
            self.scy
        } else if addr == SCX {
            self.scx
        } else if addr == LY {
            self.clock.line
        } else if addr == LYC {
            self.lyc
        } else if addr == BGP {
            self.bgp
        } else if addr == OBP0 {
            self.obp0
        } else if addr == OBP1 {
            self.obp1
        } else if addr == WY {
            self.wy
        } else if addr == WX {
            self.wx
        } else {
            0xFF
        }
    }

    /// What the program reads at `addr`: $FF where access is shut.
    pub open spec fn spec_read(self, addr: u16) -> u8 {
        if self.spec_is_valid_status(addr) {
            self.spec_peek(addr)
        } else {
            0xFF
        }
    }

    /// The unit after `val` was stored at `addr`, whatever the mode. A
    /// write to the line register puts the line counter back to 0.
    #[verifier::opaque]
    pub open spec fn spec_poke(self, addr: u16, val: u8) -> PPU {
        if spec_is_in_vram(addr) {
            PPU { vram: spec_array_update(self.vram, addr - VRAM_START, val), ..self }
        } else if spec_is_in_oam(addr) {
            let n = (addr - OAM_MEM) / 4;
            PPU {
                oam: spec_array_update(
                    self.oam,
                    n,
                    self.oam[n].spec_set_byte(((addr - OAM_MEM) % 4) as u16, val, GB::DMG),
                ),
                ..self
            }
        } else if addr == LCDC {
            PPU { lcdc: val, ..self }
        } else if addr == STAT {
            PPU { stat: val, ..self }
        } else if addr == SCY {
            PPU { scy: val, ..self }
        } else if addr == SCX {
            PPU { scx: val, ..self }
        } else if addr == LY {
            PPU { clock: self.clock.spec_reset_line(), ..self }
        } else if addr == LYC {
            PPU { lyc: val, ..self }
        } else if addr == BGP {
            PPU { bgp: val, ..self }
        } else if addr == OBP0 {
            PPU { obp0: val, ..self }
        } else if addr == OBP1 {
            PPU { obp1: val, ..self }
        } else if addr == WY {
            PPU { wy: val, ..self }
        } else if addr == WX {
            PPU { wx: val, ..self }
        } else {
            self
        }
    }

    /// The unit after the program wrote `val` to `addr`: nothing changes
    /// where access is shut.
    pub open spec fn spec_write(self, addr: u16, val: u8) -> PPU {
        if self.spec_is_valid_status(addr) {
            self.spec_poke(addr, val)
        } else {
            self
        }
    }

    // ---------------------------------------------------------------
    // What a scanline shows
    // ---------------------------------------------------------------
    /// Offset in video memory of the data of background tile `idx`:
    /// counted from $8000 when control bit 4 is set, else from $9000 with
    /// `idx` read as a signed number.
    pub open spec fn spec_tile_addr(self, idx: u8) -> int {
        if spec_bit(self.lcdc, 4) {
            idx as int * 16
        } else if idx < 128 {
            0x1000 + idx as int * 16
        } else {
            0x1000 + (idx as int - 256) * 16
        }
    }

    /// Offset in video memory of the tile map that control bit `bit`
    /// selects.
    pub open spec fn spec_map_base(self, bit: u8) -> int {
        if spec_bit(self.lcdc, bit) {
            TILE_MAP_1 as int
        } else {
            TILE_MAP_0 as int
        }
    }

    /// Colour number of the pixel in row `row`, at bit `bit`, of the tile
    /// whose data starts at `addr`.
    pub open spec fn spec_tile_color(self, addr: int, row: int, bit: int) -> u8 {
        spec_tile_pixel(self.vram[addr + 2 * row], self.vram[addr + 2 * row + 1], bit as u8)
    }

    /// Colour number of the map pixel at (`px`, `py`) of the tile map at
    /// `base`.
    pub open spec fn spec_map_color(self, base: int, px: int, py: int) -> u8 {
        let idx = self.vram[base + (py / 8) * 32 + px / 8];
        self.spec_tile_color(self.spec_tile_addr(idx), py % 8, 7 - px % 8)
    }

    /// Colour number of the background at column `x` of line `ly`: 0
    /// while the background is switched off, else the pixel of the
    /// scrolled map.
    pub open spec fn spec_bkgd_color(self, x: int, ly: u8) -> u8 {
        if !spec_bit(self.lcdc, 0) {
            0
        } else {
            self.spec_map_color(self.spec_map_base(3), (self.scx + x) % 256, (self.scy + ly) % 256)
        }
    }

    /// Shade of the background at column `x` of line `ly`.
    pub open spec fn spec_bkgd_shade(self, x: int, ly: u8) -> u8 {
        if !spec_bit(self.lcdc, 0) {
            0
        } else {
            spec_palette_entry(self.bgp, self.spec_bkgd_color(x, ly) as int)
        }
    }

    /// Whether the window is shown somewhere on line `ly`.
    pub open spec fn spec_window_on_line(self, ly: u8) -> bool {
        spec_bit(self.lcdc, 5) && self.wy <= ly && self.wx <= 166
    }

    /// Whether the window covers column `x` of line `ly`.
    pub open spec fn spec_window_covers(self, x: int, ly: u8) -> bool {
        spec_bit(self.lcdc, 5) && self.wy <= ly && x + 7 >= self.wx
    }

    /// Colour number of the window at column `x`, on the window's
    /// current line.
    pub open spec fn spec_window_color(self, x: int) -> u8 {
        self.spec_map_color(self.spec_map_base(6), x + 7 - self.wx, self.window_line as int)
    }

    /// Colour number under the sprites at column `x` of line `ly`.
    pub open spec fn spec_under_color(self, x: int, ly: u8) -> u8 {
        if self.spec_window_covers(x, ly) {
            self.spec_window_color(x)
        } else {
            self.spec_bkgd_color(x, ly)
        }
    }

    /// Shade under the sprites at column `x` of line `ly`.
    pub open spec fn spec_under_shade(self, x: int, ly: u8) -> u8 {
        if self.spec_window_covers(x, ly) {
            spec_palette_entry(self.bgp, self.spec_window_color(x) as int)
        } else {
            self.spec_bkgd_shade(x, ly)
        }
    }

    /// The sprites that line `ly` shows, among the first `k` of the
    /// table: those that the line crosses, in table order, ten at most.
    pub open spec fn spec_select(self, ly: u8, k: int) -> Seq<usize>
        decreases k,
    {
        if k <= 0 {
            Seq::empty()
        } else {
            let before = self.spec_select(ly, k - 1);
            if before.len() < LINE_SPR_NUM && self.oam[k - 1].spec_contains_scanline(
                ly,
                spec_bit(self.lcdc, 2),
            ) {
                before.push((k - 1) as usize)
            } else {
                before
            }
        }
    }

    /// Colour number of sprite `s` at column `x` of line `ly`, both of
    /// which it covers. A vertical flip counts the row from the bottom,
    /// a horizontal flip the column from the right; a tall sprite takes
    /// its sixteen rows from an even tile and the tile after it.
    pub open spec fn spec_spr_color(self, s: Sprite, x: int, ly: u8) -> u8 {
        let tall = spec_bit(self.lcdc, 2);
        let row = if s.y_flip {
            Sprite::spec_height(tall) - 1 - (ly - s.y)
        } else {
            ly - s.y
        };
        let tile = if tall {
            s.tile_num - s.tile_num % 2
        } else {
            s.tile_num as int
        };
        let col = x - s.x;
        self.spec_tile_color(tile * 16, row, if s.x_flip { col } else { 7 - col })
    }

    /// Whether sprite `s` puts a pixel at column `x` of line `ly`: it
    /// covers the place, its pixel there is not transparent, and it is
    /// not hidden behind a pixel under it that is not colour 0.
    pub open spec fn spec_spr_shows(self, s: Sprite, x: int, ly: u8) -> bool {
        &&& s.spec_contains_column(x)
        &&& s.spec_contains_scanline(ly, spec_bit(self.lcdc, 2))
        &&& self.spec_spr_color(s, x, ly) != 0
        &&& (s.above_bkgd || self.spec_under_color(x, ly) == 0)
    }

    /// Among the first `n` of the selected sprites `sel`, the one that is
    /// seen at column `x`: of those that put a pixel there, the one
    /// furthest left, and of several equally far left the first in the
    /// table.
    pub open spec fn spec_winner(self, sel: Seq<usize>, n: int, x: int, ly: u8) -> Option<usize>
        decreases n,
    {
        if n <= 0 {
            None
        } else {
            let best = self.spec_winner(sel, n - 1, x, ly);
            let cand = sel[n - 1];
            if self.spec_spr_shows(self.oam[cand as int], x, ly) && (best is None
                || self.oam[cand as int].x < self.oam[best.unwrap() as int].x) {
                Some(cand)
            } else {
                best
            }
        }
    }

    /// Shade of sprite `s` at a place it covers.
    pub open spec fn spec_spr_shade(self, s: Sprite, x: int, ly: u8) -> u8 {
        spec_palette_entry(
            if s.palette == 0 {
                self.obp0
            } else {
                self.obp1
            },
            self.spec_spr_color(s, x, ly) as int,
        )
    }

    /// Shade of the pixel at column `x` of line `ly`: that of the sprite
    /// seen there, if sprites are switched on and one is, else that of
    /// the window or the background.
    pub open spec fn spec_pixel(self, x: int, ly: u8) -> u8 {
        let sel = self.spec_select(ly, OAM_SPR_NUM as int);
        let winner = self.spec_winner(sel, sel.len() as int, x, ly);
        if spec_bit(self.lcdc, 1) && winner is Some {
            self.spec_spr_shade(self.oam[winner.unwrap() as int], x, ly)
        } else {
            self.spec_under_shade(x, ly)
        }
    }

    /// The 160 shades of line `ly`.
    pub open spec fn spec_line(self, ly: u8) -> Seq<u8> {
        Seq::new(SCREEN_WIDTH as nat, |x: int| self.spec_pixel(x, ly))
    }

    /// The unit after it rendered the current line into the frame
    /// buffer. The window's line counter moves on if the line showed
    /// the window. Outside the visible lines nothing changes.
    pub open spec fn spec_render_scanline(self) -> PPU {
        let ly = self.clock.line;
        if ly < SCREEN_HEIGHT {
            PPU {
                map_buffer: spec_blit(
                    self.map_buffer,
                    ly as int * SCREEN_WIDTH as int,
                    self.spec_line(ly),
                    SCREEN_WIDTH as int,
                ),
                window_line: if self.spec_window_on_line(ly) {
                    if self.window_line == 255 {
                        0
                    } else {
                        (self.window_line + 1) as u8
                    }
                } else {
                    self.window_line
                },
                ..self
            }
        } else {
            self
        }
    }

    // ---------------------------------------------------------------
    // The state machine
    // ---------------------------------------------------------------
    /// The unit one dot later: the clock moves on; the dot that ends
    /// the drawing of a visible line renders that line; the dot that
    /// starts a frame puts the window's line counter back to 0.
    pub open spec fn spec_dot(self) -> PPU {
        let moved = PPU { clock: self.clock.spec_tick(), ..self };
        if self.clock.spec_event() == ClockResults::RenderScanline {
            moved.spec_render_scanline()
        } else if moved.clock.line == 0 && moved.clock.cycles == 0 {
            PPU { window_line: 0, ..moved }
        } else {
            moved
        }
    }

    /// What the next dot asks for. The status interrupt is requested when
    /// the dot enters a mode, or a line equal to the compare register,
    /// whose bit in the status register (3: horizontal blanking, 4:
    /// vertical blanking, 5: sprite scan, 6: line compare) is set.
    pub open spec fn spec_dot_events(self) -> PpuEvents {
        let next = self.clock.spec_tick();
        PpuEvents {
            frame_ready: self.clock.spec_event() == ClockResults::RenderFrame,
            stat_interrupt: if next.cycles == HBLANK_START {
                next.line < VBLANK_LINE_START && spec_bit(self.stat, 3)
            } else if next.cycles == 0 {
                ||| (next.line == VBLANK_LINE_START && spec_bit(self.stat, 4))
                ||| (next.line < VBLANK_LINE_START && spec_bit(self.stat, 5))
                ||| (next.line == self.lyc && spec_bit(self.stat, 6))
            } else {
                false
            },
        }
    }

    /// The unit `n` dots later.
    pub open spec fn spec_run(self, n: nat) -> PPU
        decreases n,
    {
        if n == 0 {
            self
        } else {
            self.spec_dot().spec_run((n - 1) as nat)
        }
    }

    /// Everything that the next `n` dots ask for.
    pub open spec fn spec_run_events(self, n: nat) -> PpuEvents
        decreases n,
    {
        if n == 0 {
            PpuEvents::none()
        } else {
            self.spec_dot_events().spec_or(self.spec_dot().spec_run_events((n - 1) as nat))
        }
    }

    /// The colours of a frame: four bytes for each pixel, those of its
    /// shade in the host's colour scheme.
    pub open spec fn spec_colors(self, pixels: [u8; FRAME_SIZE], screen: [u8; DISP_SIZE]) -> bool {
        forall|i: int, c: int|
            0 <= i < FRAME_SIZE && 0 <= c < 4 ==> #[trigger] screen[4 * i + c] == spec_bg_pal(
                self.palette.sys_pal,
            )[(pixels[i] % 4) as int][c]
    }

    // ---------------------------------------------------------------
    // Executable code
    // ---------------------------------------------------------------
    /// A unit at the first dot of a frame, with all memory and every
    /// register zero.
    pub fn new() -> (ppu: PPU)
        ensures
            ppu.wf(),
            ppu.clock == Clock::at(0),
            ppu.window_line == 0,
            ppu.palette.sys_pal == crate::ppu::palette::Palettes::GRAYSCALE,
            ppu.lcdc == 0 && ppu.stat == 0 && ppu.scy == 0 && ppu.scx == 0 && ppu.lyc == 0,
            ppu.bgp == 0 && ppu.obp0 == 0 && ppu.obp1 == 0 && ppu.wy == 0 && ppu.wx == 0,
            forall|i: int| 0 <= i < VRAM_SIZE ==> ppu.vram[i] == 0,
            forall|i: int| 0 <= i < FRAME_SIZE ==> ppu.map_buffer[i] == 0,
            forall|i: int| 0 <= i < OAM_SPR_NUM ==> (#[trigger] ppu.oam[i]).spec_is_blank(),
    {
        PPU {
            vram: [0u8; VRAM_SIZE],
            oam: [Sprite::new(); OAM_SPR_NUM],
            map_buffer: [0u8; FRAME_SIZE],
            clock: Clock::new(),
            window_line: 0,
            lcdc: 0,
            stat: 0,
            scy: 0,
            scx: 0,
            lyc: 0,
            bgp: 0,
            obp0: 0,
            obp1: 0,
            wy: 0,
            wx: 0,
            palette: Palette::new(),
        }
    }

    /// Whether the unit's clock is in order.
    pub fn is_wf(&self) -> (ok: bool)
        ensures
            ok == self.wf(),
    {
        self.clock.is_wf()
    }

    fn read_stat(&self) -> (val: u8)
        ensures
            val == self.spec_stat(),
    {
        let coincidence: u8 = if self.clock.get_scanline() == self.lyc { 4 } else { 0 };
        128 + (self.stat / 8) % 16 * 8 + coincidence + self.clock.get_mode().get_idx()
    }

    /// Reads the byte at `raw_addr`, whatever the mode.
    pub fn peek_vram(&self, raw_addr: u16) -> (val: u8)
        ensures
            val == self.spec_peek(raw_addr),
    {
        reveal(PPU::spec_peek);
        if VRAM_START <= raw_addr && raw_addr <= VRAM_END {
            self.vram[(raw_addr - VRAM_START) as usize]
        } else if is_in_oam(raw_addr) {
            let relative_addr = raw_addr - OAM_MEM;
            self.oam[(relative_addr / 4) as usize].get_byte(relative_addr % 4)
        } else if raw_addr == LCDC {
            self.lcdc
        } else if raw_addr == STAT {
            self.read_stat()
        } else if raw_addr == SCY {
            self.scy
        } else if raw_addr == SCX {
            self.scx
        } else if raw_addr == LY {
            self.clock.get_scanline()
        } else if raw_addr == LYC {
            self.lyc
        } else if raw_addr == BGP {
            self.bgp
        } else if raw_addr == OBP0 {
            self.obp0
        } else if raw_addr == OBP1 {
            self.obp1
        } else if raw_addr == WY {
            self.wy
        } else if raw_addr == WX {
            self.wx
        } else {
            0xFF
        }
    }

    /// Stores `val` at `raw_addr`, whatever the mode.
    pub fn poke_vram(&mut self, raw_addr: u16, val: u8)
        requires
            old(self).wf(),
        ensures
            *final(self) == old(self).spec_poke(raw_addr, val),
            final(self).wf(),
    {
        reveal(PPU::spec_poke);
        if VRAM_START <= raw_addr && raw_addr <= VRAM_END {
            self.vram[(raw_addr - VRAM_START) as usize] = val;
        } else if is_in_oam(raw_addr) {
            let relative_addr = raw_addr - OAM_MEM;
            let spr_num = (relative_addr / 4) as usize;
            let mut sprite = self.oam[spr_num];
            sprite.set_byte(relative_addr % 4, val, GB::DMG);
            self.oam[spr_num] = sprite;
        } else if raw_addr == LCDC {
            self.lcdc = val;
        } else if raw_addr == STAT {
            self.set_status(val);
        } else if raw_addr == SCY {
            self.scy = val;
        } else if raw_addr == SCX {
            self.scx = val;
        } else if raw_addr == LY {
            self.clock.reset_line();
        } else if raw_addr == LYC {
            self.lyc = val;
        } else if raw_addr == BGP {
            self.bgp = val;
        } else if raw_addr == OBP0 {
            self.obp0 = val;
        } else if raw_addr == OBP1 {
            self.obp1 = val;
        } else if raw_addr == WY {
            self.wy = val;
        } else if raw_addr == WX {
            self.wx = val;
        }
    }

    /// Handles a write of the program to video memory, the sprite table
    /// or a register. The write is dropped where access is shut.
    pub fn write_vram(&mut self, raw_addr: u16, val: u8)
        requires
            old(self).wf(),
        ensures
            *final(self) == old(self).spec_write(raw_addr, val),
            final(self).wf(),
    {
        if self.is_valid_status(raw_addr) {
            self.poke_vram(raw_addr, val);
        }
    }

    /// Handles a read of the program from video memory, the sprite table
    /// or a register. Where access is shut the read returns $FF.
    pub fn read_vram(&self, raw_addr: u16) -> (val: u8)
        ensures
            val == self.spec_read(raw_addr),
    {
        if self.is_valid_status(raw_addr) {
            self.peek_vram(raw_addr)
        } else {
            0xFF
        }
    }

    /// Puts the line counter at `line`, within the same dot of the line.
    /// Says whether the status interrupt for a line equal to the compare
    /// register is to be requested.
    pub fn set_ly(&mut self, line: u8) -> (interrupt: bool)
        requires
            old(self).wf(),
            line <= VBLANK_LINE_END,
        ensures
            final(self).wf(),
            final(self).clock.line == line,
            final(self).clock.cycles == old(self).clock.cycles,
            *final(self) == (PPU { clock: final(self).clock, ..*old(self) }),
            interrupt == (line == old(self).lyc && spec_bit(old(self).stat, 6)),
    {
        self.clock.reset_line();
        self.clock = Clock::at_line(line, self.clock.cycles);
        self.lyc == line && get_bit(self.stat, 6)
    }

    /// Handles a write to the status register. Bits 6-3 select the
    /// sources of the status interrupt; the low three bits that reads show
    /// are not the ones written but the mode and the line compare, so a
    /// write leaves them as they are.
    pub fn set_status(&mut self, val: u8)
        ensures
            *final(self) == (PPU { stat: val, ..*old(self) }),
            final(self).spec_stat() % 8 == old(self).spec_stat() % 8,
            (final(self).spec_stat() / 8) % 16 == (val / 8) % 16,
    {
        self.stat = val;
    }

    /// The mode that the status register shows.
    pub fn get_lcdc_status(&self) -> (mode: ModeTypes)
        ensures
            mode == self.clock.mode,
    {
        self.clock.get_mode()
    }

    pub fn is_valid_status(&self, addr: u16) -> (valid: bool)
        ensures
            valid == self.spec_is_valid_status(addr),
    {
        match self.get_lcdc_status() {
            ModeTypes::OAMReadMode => !is_in_oam(addr),
            ModeTypes::VRAMReadMode => !is_in_oam(addr) && !(VRAM_START <= addr && addr <= VRAM_END),
            _ => true,
        }
    }

    pub fn is_bkgd_dspl(&self) -> (on: bool)
        ensures
            on == spec_bit(self.lcdc, 0),
    {
        get_bit(self.lcdc, 0)
    }

    pub fn is_sprt_dspl(&self) -> (on: bool)
        ensures
            on == spec_bit(self.lcdc, 1),
    {
        get_bit(self.lcdc, 1)
    }

    pub fn spr_are_8x16(&self) -> (tall: bool)
        ensures
            tall == spec_bit(self.lcdc, 2),
    {
        get_bit(self.lcdc, 2)
    }

    pub fn is_wndw_dspl(&self) -> (on: bool)
        ensures
            on == spec_bit(self.lcdc, 5),
    {
        get_bit(self.lcdc, 5)
    }

    pub fn get_bkgd_tile_map_index(&self) -> (index: u8)
        ensures
            index == (if spec_bit(self.lcdc, 3) { 1u8 } else { 0u8 }),
    {
        if get_bit(self.lcdc, 3) { 1 } else { 0 }
    }

    pub fn get_bkgd_wndw_tile_set_index(&self) -> (index: u8)
        ensures
            index == (if spec_bit(self.lcdc, 4) { 1u8 } else { 0u8 }),
    {
        if get_bit(self.lcdc, 4) { 1 } else { 0 }
    }

    pub fn get_wndw_tile_map_index(&self) -> (index: u8)
        ensures
            index == (if spec_bit(self.lcdc, 6) { 1u8 } else { 0u8 }),
    {
        if get_bit(self.lcdc, 6) { 1 } else { 0 }
    }

    /// The tile map of the background: 32 rows of 32 tile numbers.
    pub fn get_bkgd_tile_map(&self) -> (map: &[u8])
        ensures
            map@ == self.vram@.subrange(self.spec_map_base(3), self.spec_map_base(3) + 0x400),
    {
        if self.get_bkgd_tile_map_index() == 0 {
            slice_subrange(self.vram.as_slice(), TILE_MAP_0, TILE_MAP_0 + 0x400)
        } else {
            slice_subrange(self.vram.as_slice(), TILE_MAP_1, TILE_MAP_1 + 0x400)
        }
    }

    /// The tile map of the window.
    pub fn get_wndw_tile_map(&self) -> (map: &[u8])
        ensures
            map@ == self.vram@.subrange(self.spec_map_base(6), self.spec_map_base(6) + 0x400),
    {
        if self.get_wndw_tile_map_index() == 0 {
            slice_subrange(self.vram.as_slice(), TILE_MAP_0, TILE_MAP_0 + 0x400)
        } else {
            slice_subrange(self.vram.as_slice(), TILE_MAP_1, TILE_MAP_1 + 0x400)
        }
    }

    /// The four shades of the background palette, colour 0 first.
    pub fn get_bkgd_palette(&self) -> (shades: [u8; 4])
        ensures
            forall|i: int| 0 <= i < 4 ==> shades[i] == #[trigger] spec_palette_entry(self.bgp, i),
    {
        unpack_u8(self.bgp)
    }

    /// The four shades of an object palette, colour 0 first.
    pub fn get_spr_palette(&self, pal_0: bool) -> (shades: [u8; 4])
        ensures
            pal_0 ==> forall|i: int| 0 <= i < 4 ==> shades[i] == #[trigger] spec_palette_entry(self.obp0, i),
            !pal_0 ==> forall|i: int| 0 <= i < 4 ==> shades[i] == #[trigger] spec_palette_entry(self.obp1, i),
    {
        if pal_0 {
            unpack_u8(self.obp0)
        } else {
            unpack_u8(self.obp1)
        }
    }

    pub fn get_scroll_coords(&self) -> (coords: Point)
        ensures
            coords == (Point { x: self.scx, y: self.scy }),
    {
        Point::new(self.scx, self.scy)
    }

    /// Screen position of the window's upper left corner; a window that
    /// starts left of the screen is cut at column 0.
    pub fn get_wndw_coords(&self) -> (coords: Point)
        ensures
            coords == (Point { x: if self.wx < 7 { 0u8 } else { (self.wx - 7) as u8 }, y: self.wy }),
    {
        let wndw_x = if self.wx < 7 { 0 } else { self.wx - 7 };
        Point::new(wndw_x, self.wy)
    }

    fn tile_addr(&self, idx: u8) -> (addr: usize)
        ensures
            addr == self.spec_tile_addr(idx),
            addr + 16 <= 0x1800,
    {
        if self.get_bkgd_wndw_tile_set_index() == 1 {
            (idx as usize) * 16
        } else if idx < 128 {
            0x1000 + (idx as usize) * 16
        } else {
            0x0800 + ((idx - 128) as usize) * 16
        }
    }

    fn tile_color(&self, addr: usize, row: usize, bit: u8) -> (color: u8)
        requires
            addr + 2 * row + 1 < VRAM_SIZE,
            bit < 8,
        ensures
            color == self.spec_tile_color(addr as int, row as int, bit as int),
            color < 4,
    {
        tile_pixel(self.vram[addr + 2 * row], self.vram[addr + 2 * row + 1], bit)
    }

    fn map_color(&self, map: &[u8], base: Ghost<int>, px: usize, py: usize) -> (color: u8)
        requires
            px < 256,
            py < 256,
            0 <= base@,
            base@ + 0x400 <= VRAM_SIZE,
            map@ == self.vram@.subrange(base@, base@ + 0x400),
        ensures
            color == self.spec_map_color(base@, px as int, py as int),
            color < 4,
    {
        let index = (py / 8) * MAP_SIZE + px / 8;
        let idx = map[index];
        let addr = self.tile_addr(idx);
        self.tile_color(addr, py % 8, (7 - px % 8) as u8)
    }

    /// Colour numbers of the background along the current line.
    pub fn render_screen_line(&self, ly: u8) -> (row: [u8; SCREEN_WIDTH])
        ensures
            forall|x: int| 0 <= x < SCREEN_WIDTH ==> row[x] == self.spec_bkgd_color(x, ly),
    {
        let mut row = [0u8; SCREEN_WIDTH];
        if !self.is_bkgd_dspl() {
            return row;
        }
        let tile_map = self.get_bkgd_tile_map();
        let coords = self.get_scroll_coords();
        let y = (coords.y as usize + ly as usize) % 256;
        let start_x = coords.x as usize;
        let mut x: usize = 0;
        while x < SCREEN_WIDTH
            invariant
                x <= SCREEN_WIDTH,
                spec_bit(self.lcdc, 0),
                y == (self.scy + ly) % 256,
                start_x == self.scx,
                tile_map@ == self.vram@.subrange(self.spec_map_base(3), self.spec_map_base(3) + 0x400),
                forall|j: int| 0 <= j < x ==> row[j] == self.spec_bkgd_color(j, ly),
            decreases SCREEN_WIDTH - x,
        {
            row[x] = self.map_color(tile_map, Ghost(self.spec_map_base(3)), (start_x + x) % 256, y);
            x = x + 1;
        }
        row
    }

    /// Puts the window over the colour numbers of the background.
    pub fn render_window(&self, bkgd: [u8; SCREEN_WIDTH], ly: u8) -> (row: [u8; SCREEN_WIDTH])
        requires
            forall|x: int| 0 <= x < SCREEN_WIDTH ==> bkgd[x] == self.spec_bkgd_color(x, ly),
        ensures
            forall|x: int| 0 <= x < SCREEN_WIDTH ==> row[x] == self.spec_under_color(x, ly),
    {
        let mut row = bkgd;
        if !self.is_wndw_dspl() || self.wy > ly {
            return row;
        }
        let wndw_map = self.get_wndw_tile_map();
        let mut x: usize = 0;
        while x < SCREEN_WIDTH
            invariant
                x <= SCREEN_WIDTH,
                spec_bit(self.lcdc, 5),
                self.wy <= ly,
                wndw_map@ == self.vram@.subrange(self.spec_map_base(6), self.spec_map_base(6) + 0x400),
                forall|j: int| 0 <= j < x ==> row[j] == self.spec_under_color(j, ly),
                forall|j: int| x <= j < SCREEN_WIDTH ==> row[j] == self.spec_bkgd_color(j, ly),
            decreases SCREEN_WIDTH - x,
        {
            if x + 7 >= self.wx as usize {
                row[x] = self.map_color(
                    wndw_map,
                    Ghost(self.spec_map_base(6)),
                    x + 7 - self.wx as usize,
                    self.window_line as usize,
                );
            }
            x = x + 1;
        }
        row
    }

    /// The sprites that line `ly` shows.
    pub fn select_sprites(&self, ly: u8) -> (sel: Vec<usize>)
        ensures
            sel@ == self.spec_select(ly, OAM_SPR_NUM as int),
            sel@.len() <= LINE_SPR_NUM,
            forall|j: int| 0 <= j < sel@.len() ==> sel@[j] < OAM_SPR_NUM,
    {
        let tall = self.spr_are_8x16();
        let mut sel: Vec<usize> = Vec::new();
        let mut i: usize = 0;
        while i < OAM_SPR_NUM
            invariant
                i <= OAM_SPR_NUM,
                tall == spec_bit(self.lcdc, 2),
                sel@ == self.spec_select(ly, i as int),
                sel@.len() <= LINE_SPR_NUM,
                forall|j: int| 0 <= j < sel@.len() ==> sel@[j] < OAM_SPR_NUM,
            decreases OAM_SPR_NUM - i,
        {
            if sel.len() < LINE_SPR_NUM && self.oam[i].contains_scanline(ly, tall) {
                sel.push(i);
            }
            i = i + 1;
        }
        sel
    }

    /// Colour number of a sprite at a place it covers.
    pub fn draw_spr(&self, spr: &Sprite, x: usize, ly: u8) -> (color: u8)
        requires
            spr.spec_contains_column(x as int),
            spr.spec_contains_scanline(ly, spec_bit(self.lcdc, 2)),
        ensures
            color == self.spec_spr_color(*spr, x as int, ly),
            color < 4,
    {
        let tall = self.spr_are_8x16();
        let height: i32 = if tall { 16 } else { 8 };
        let top = ly as i32 - spr.y as i32;
        let row = if spr.is_y_flip() { height - 1 - top } else { top };
        let tile_num = spr.get_tile_num();
        let tile = if tall { tile_num - tile_num % 2 } else { tile_num };
        let col = x as i32 - spr.x as i32;
        let bit = if spr.is_x_flip() { col } else { 7 - col };
        self.tile_color((tile as usize) * 16, row as usize, bit as u8)
    }

    /// Among the selected sprites, the one seen at column `x`, if any.
    pub fn winning_sprite(&self, sel: &Vec<usize>, x: usize, ly: u8, under: u8) -> (winner: Option<usize>)
        requires
            x < SCREEN_WIDTH,
            under == self.spec_under_color(x as int, ly),
            forall|j: int| 0 <= j < sel@.len() ==> sel@[j] < OAM_SPR_NUM,
        ensures
            winner == self.spec_winner(sel@, sel@.len() as int, x as int, ly),
            winner is Some ==> winner.unwrap() < OAM_SPR_NUM,
            winner is Some ==> self.spec_spr_shows(self.oam[winner.unwrap() as int], x as int, ly),
    {
        let tall = self.spr_are_8x16();
        let mut winner: Option<usize> = None;
        let mut best_x: i16 = 0;
        let mut n: usize = 0;
        while n < sel.len()
            invariant
                n <= sel@.len(),
                x < SCREEN_WIDTH,
                tall == spec_bit(self.lcdc, 2),
                under == self.spec_under_color(x as int, ly),
                forall|j: int| 0 <= j < sel@.len() ==> sel@[j] < OAM_SPR_NUM,
                winner == self.spec_winner(sel@, n as int, x as int, ly),
                winner is Some ==> winner.unwrap() < OAM_SPR_NUM && best_x == self.oam[winner.unwrap() as int].x,
                winner is Some ==> self.spec_spr_shows(self.oam[winner.unwrap() as int], x as int, ly),
            decreases sel@.len() - n,
        {
            let cand = sel[n];
            let spr = self.oam[cand];
            let column = x as i32;
            let covers = spr.x as i32 <= column && column < spr.x as i32 + 8 && spr.contains_scanline(ly, tall);
            if covers {
                let color = self.draw_spr(&spr, x, ly);
                let shows = color != 0 && (spr.is_above_bkgd() || under == 0);
                if shows && (winner.is_none() || spr.x < best_x) {
                    winner = Some(cand);
                    best_x = spr.x;
                }
            }
            n = n + 1;
        }
        winner
    }

    /// Turns the colour numbers under the sprites into shades and puts
    /// the sprites over them.
    pub fn render_sprites(&self, under: [u8; SCREEN_WIDTH], ly: u8) -> (row: [u8; SCREEN_WIDTH])
        requires
            forall|x: int| 0 <= x < SCREEN_WIDTH ==> under[x] == self.spec_under_color(x, ly),
        ensures
            forall|x: int| 0 <= x < SCREEN_WIDTH ==> row[x] == self.spec_pixel(x, ly),
            forall|x: int| 0 <= x < SCREEN_WIDTH ==> row[x] < 4,
    {
        let mut row = [0u8; SCREEN_WIDTH];
        let sel = self.select_sprites(ly);
        let sprites_on = self.is_sprt_dspl();
        let bkgd_on = self.is_bkgd_dspl();
        let window_on = self.is_wndw_dspl() && self.wy <= ly;
        let bkgd_pal = self.get_bkgd_palette();
        let obj0_pal = self.get_spr_palette(true);
        let obj1_pal = self.get_spr_palette(false);
        let mut x: usize = 0;
        while x < SCREEN_WIDTH
            invariant
                x <= SCREEN_WIDTH,
                sel@ == self.spec_select(ly, OAM_SPR_NUM as int),
                forall|j: int| 0 <= j < sel@.len() ==> sel@[j] < OAM_SPR_NUM,
                sprites_on == spec_bit(self.lcdc, 1),
                bkgd_on == spec_bit(self.lcdc, 0),
                window_on == (spec_bit(self.lcdc, 5) && self.wy <= ly),
                forall|i: int| 0 <= i < 4 ==> bkgd_pal[i] == #[trigger] spec_palette_entry(self.bgp, i),
                forall|i: int| 0 <= i < 4 ==> obj0_pal[i] == #[trigger] spec_palette_entry(self.obp0, i),
                forall|i: int| 0 <= i < 4 ==> obj1_pal[i] == #[trigger] spec_palette_entry(self.obp1, i),
                forall|j: int| 0 <= j < SCREEN_WIDTH ==> under[j] == self.spec_under_color(j, ly),
                forall|j: int| 0 <= j < x ==> row[j] == self.spec_pixel(j, ly),
                forall|j: int| 0 <= j < x ==> row[j] < 4,
            decreases SCREEN_WIDTH - x,
        {
            let raw = under[x];
            proof {
                self.lemma_colors_bounded(x as int, ly);
                lemma_palette_entry_bound(self.bgp, raw as int);
            }
            let covered = window_on && x + 7 >= self.wx as usize;
            let mut shade = if covered || bkgd_on { bkgd_pal[raw as usize] } else { 0 };
            if sprites_on {
                match self.winning_sprite(&sel, x, ly, raw) {
                    Some(w) => {
                        let spr = self.oam[w];
                        let color = self.draw_spr(&spr, x, ly);
                        proof {
                            lemma_palette_entry_bound(self.obp0, color as int);
                            lemma_palette_entry_bound(self.obp1, color as int);
                        }
                        shade = if spr.get_pal() == 0 { obj0_pal[color as usize] } else { obj1_pal[color as usize] };
                    },
                    None => {},
                }
            }
            row[x] = shade;
            x = x + 1;
        }
        row
    }

    /// Renders the current line into the frame buffer.
    pub fn render_scanline(&mut self)
        ensures
            *final(self) == old(self).spec_render_scanline(),
    {
        let line = self.clock.get_scanline();
        if line as usize >= SCREEN_HEIGHT {
            return ;
        }
        let bkgd = self.render_screen_line(line);
        let under = self.render_window(bkgd, line);
        let pixel_row = self.render_sprites(under, line);
        let start_index = line as usize * SCREEN_WIDTH;
        let ghost row = old(self).spec_line(line);
        let mut x: usize = 0;
        while x < SCREEN_WIDTH
            invariant
                x <= SCREEN_WIDTH,
                line < SCREEN_HEIGHT,
                start_index == line as int * SCREEN_WIDTH as int,
                row == old(self).spec_line(line),
                forall|j: int| 0 <= j < SCREEN_WIDTH ==> pixel_row[j] == row[j],
                *self == (PPU {
                    map_buffer: spec_blit(old(self).map_buffer, start_index as int, row, x as int),
                    ..*old(self)
                }),
            decreases SCREEN_WIDTH - x,
        {
            self.map_buffer[start_index + x] = pixel_row[x];
            x = x + 1;
        }
        if self.is_wndw_dspl() && self.wy <= line && self.wx <= 166 {
            self.window_line = self.window_line.wrapping_add(1);
        }
    }

    /// Advances the unit by one dot.
    pub fn step_dot(&mut self) -> (events: PpuEvents)
        requires
            old(self).wf(),
        ensures
            *final(self) == old(self).spec_dot(),
            events == old(self).spec_dot_events(),
            final(self).wf(),
    {
        let result = self.clock.tick();
        let line = self.clock.get_scanline();
        let dot = self.clock.cycles;
        let mut stat_interrupt = false;
        if dot == HBLANK_START {
            stat_interrupt = line < VBLANK_LINE_START && get_bit(self.stat, 3);
        } else if dot == 0 {
            stat_interrupt = (line == VBLANK_LINE_START && get_bit(self.stat, 4)) || (line
                < VBLANK_LINE_START && get_bit(self.stat, 5)) || (line == self.lyc && get_bit(self.stat, 6));
        }
        if result == ClockResults::RenderScanline {
            self.render_scanline();
        } else if line == 0 && dot == 0 {
            self.window_line = 0;
        }
        PpuEvents { frame_ready: result == ClockResults::RenderFrame, stat_interrupt }
    }

    /// Advances the unit by `dots` dots and collects what they ask for.
    pub fn step(&mut self, dots: u16) -> (events: PpuEvents)
        requires
            old(self).wf(),
        ensures
            *final(self) == old(self).spec_run(dots as nat),
            events == old(self).spec_run_events(dots as nat),
            final(self).wf(),
    {
        let mut events = PpuEvents { frame_ready: false, stat_interrupt: false };
        let mut left: u16 = dots;
        while left > 0
            invariant
                self.wf(),
                self.spec_run(left as nat) == old(self).spec_run(dots as nat),
                events.spec_or(self.spec_run_events(left as nat)) == old(self).spec_run_events(dots as nat),
            decreases left,
        {
            let e = self.step_dot();
            events = PpuEvents {
                frame_ready: events.frame_ready || e.frame_ready,
                stat_interrupt: events.stat_interrupt || e.stat_interrupt,
            };
            left = left - 1;
        }
        events
    }

    /// The frame buffer in the colours of the host's scheme, four bytes
    /// for each pixel.
    pub fn render_screen(&self) -> (screen: [u8; DISP_SIZE])
        ensures
            self.spec_colors(self.map_buffer, screen),
    {
        self.get_color(&self.map_buffer)
    }

    pub fn get_color(&self, pixel_array: &[u8; FRAME_SIZE]) -> (rgb_screen: [u8; DISP_SIZE])
        ensures
            self.spec_colors(*pixel_array, rgb_screen),
    {
        let colors = self.palette.get_bg_pal();
        let mut rgb_screen = [0u8; DISP_SIZE];
        let mut index: usize = 0;
        while index < FRAME_SIZE
            invariant
                index <= FRAME_SIZE,
                colors == spec_bg_pal(self.palette.sys_pal),
                forall|i: int, c: int|
                    0 <= i < index && 0 <= c < 4 ==> #[trigger] rgb_screen[4 * i + c] == colors[(pixel_array[i] % 4) as int][c],
            decreases FRAME_SIZE - index,
        {
            let color = colors[(pixel_array[index] % 4) as usize];
            let view_index = index * 4;
            rgb_screen[view_index] = color[0];
            rgb_screen[view_index + 1] = color[1];
            rgb_screen[view_index + 2] = color[2];
            rgb_screen[view_index + 3] = color[3];
            index = index + 1;
        }
        rgb_screen
    }

    /// Colour numbers are 2-bit values.
    pub proof fn lemma_colors_bounded(self, x: int, ly: u8)
        ensures
            self.spec_under_color(x, ly) < 4,
    {
    }
}

pub fn is_in_oam(addr: u16) -> (inside: bool)
    ensures
        inside == spec_is_in_oam(addr),
{
    addr >= OAM_MEM && addr <= OAM_MEM_END
}

pub fn is_in_tile_set(addr: u16) -> (inside: bool)
    ensures
        inside == (TILE_SET <= addr <= TILE_SET_END),
{
    addr >= TILE_SET && addr <= TILE_SET_END
}

/// While the background is switched off, every pixel of it has colour
/// 0 and shade 0, whatever the maps, the tiles and the palette hold.
pub proof fn lemma_background_off_is_blank(ppu: PPU, x: int, ly: u8)
    requires
        !spec_bit(ppu.lcdc, 0),
    ensures
        ppu.spec_bkgd_color(x, ly) == 0,
        ppu.spec_bkgd_shade(x, ly) == 0,
{
}

/// Every pixel that the renderer produces is a 2-bit shade.
pub proof fn lemma_pixel_is_shade(ppu: PPU, x: int, ly: u8)
    ensures
        ppu.spec_pixel(x, ly) < 4,
{
    let sel = ppu.spec_select(ly, OAM_SPR_NUM as int);
    let winner = ppu.spec_winner(sel, sel.len() as int, x, ly);
    if winner is Some {
        let s = ppu.oam[winner.unwrap() as int];
        lemma_palette_entry_bound(ppu.obp0, ppu.spec_spr_color(s, x, ly) as int);
        lemma_palette_entry_bound(ppu.obp1, ppu.spec_spr_color(s, x, ly) as int);
    }
    lemma_palette_entry_bound(ppu.bgp, ppu.spec_window_color(x) as int);
    lemma_palette_entry_bound(ppu.bgp, ppu.spec_bkgd_color(x, ly) as int);
}

/// A byte stored in the sprite table is read back from its place, and
/// the store changes nothing else that can be read from the unit.
pub proof fn lemma_poke_oam(ppu: PPU, addr: u16, val: u8, other: u16)
    requires
        spec_is_in_oam(addr),
    ensures
        ppu.spec_poke(addr, val).spec_peek(addr) == val,
        other != addr ==> ppu.spec_poke(addr, val).spec_peek(other) == ppu.spec_peek(other),
        ppu.spec_poke(addr, val).clock == ppu.clock,
{
    reveal(PPU::spec_peek);
    reveal(PPU::spec_poke);
}

/// The sprites selected for a line are at most ten, each is crossed by
/// the line, and they stand in table order.
pub proof fn lemma_select_in_order(ppu: PPU, ly: u8, k: int, i: int, j: int)
    requires
        0 <= k <= OAM_SPR_NUM,
        0 <= i < j < ppu.spec_select(ly, k).len(),
    ensures
        ppu.spec_select(ly, k).len() <= LINE_SPR_NUM,
        ppu.spec_select(ly, k)[i] < ppu.spec_select(ly, k)[j] < k,
        ppu.oam[ppu.spec_select(ly, k)[j] as int].spec_contains_scanline(ly, spec_bit(ppu.lcdc, 2)),
        ppu.oam[ppu.spec_select(ly, k)[i] as int].spec_contains_scanline(ly, spec_bit(ppu.lcdc, 2)),
    decreases k,
{
    let before = ppu.spec_select(ly, k - 1);
    if k > 0 {
        lemma_select_bounds(ppu, ly, k - 1);
        if j < before.len() {
            lemma_select_in_order(ppu, ly, k - 1, i, j);
        } else if i > 0 {
            lemma_select_in_order(ppu, ly, k - 1, 0, i);
        } else if before.len() > 1 {
            lemma_select_in_order(ppu, ly, k - 1, 0, 1);
        } else {
            lemma_select_single(ppu, ly, k - 1);
        }
    }
}

/// Every selected sprite stands before place `k` of the table.
pub proof fn lemma_select_bounds(ppu: PPU, ly: u8, k: int)
    requires
        0 <= k <= OAM_SPR_NUM,
    ensures
        ppu.spec_select(ly, k).len() <= LINE_SPR_NUM,
        forall|i: int| 0 <= i < ppu.spec_select(ly, k).len() ==> 0 <= #[trigger] ppu.spec_select(ly, k)[i] < k,
    decreases k,
{
    if k > 0 {
        lemma_select_bounds(ppu, ly, k - 1);
    }
}

proof fn lemma_select_single(ppu: PPU, ly: u8, k: int)
    requires
        0 <= k <= OAM_SPR_NUM,
        ppu.spec_select(ly, k).len() == 1,
    ensures
        ppu.oam[ppu.spec_select(ly, k)[0] as int].spec_contains_scanline(ly, spec_bit(ppu.lcdc, 2)),
    decreases k,
{
    if k > 0 && ppu.spec_select(ly, k - 1).len() == 1 {
        lemma_select_single(ppu, ly, k - 1);
    }
}

/// The sprite that is seen at a place puts a pixel there, and no selected
/// sprite that puts a pixel there stands further left, nor equally far
/// left and earlier in the table.
pub proof fn lemma_winner_is_leftmost(ppu: PPU, sel: Seq<usize>, n: int, x: int, ly: u8, k: int)
    requires
        0 <= k < n <= sel.len(),
        forall|i: int, j: int| 0 <= i < j < sel.len() ==> sel[i] < sel[j],
    ensures
        ppu.spec_winner(sel, n, x, ly) is Some ==> ppu.spec_spr_shows(
            ppu.oam[ppu.spec_winner(sel, n, x, ly).unwrap() as int],
            x,
            ly,
        ),
        ppu.spec_spr_shows(ppu.oam[sel[k] as int], x, ly) ==> {
            let w = ppu.spec_winner(sel, n, x, ly);
            &&& w is Some
            &&& ppu.oam[w.unwrap() as int].x <= ppu.oam[sel[k] as int].x
            &&& ppu.oam[w.unwrap() as int].x == ppu.oam[sel[k] as int].x ==> w.unwrap() <= sel[k]
        },
    decreases n,
{
    lemma_winner_is_selected(ppu, sel, n, x, ly);
    if k < n - 1 {
        lemma_winner_is_leftmost(ppu, sel, n - 1, x, ly, k);
        lemma_winner_is_selected(ppu, sel, n - 1, x, ly);
    } else if n > 1 {
        lemma_winner_is_leftmost(ppu, sel, n - 1, x, ly, 0);
        lemma_winner_is_selected(ppu, sel, n - 1, x, ly);
    }
}

/// The sprite that is seen at a place is one of the selected sprites and
/// puts a pixel there.
pub proof fn lemma_winner_is_selected(ppu: PPU, sel: Seq<usize>, n: int, x: int, ly: u8)
    requires
        0 <= n <= sel.len(),
    ensures
        ppu.spec_winner(sel, n, x, ly) is Some ==> (exists|i: int|
            0 <= i < n && sel[i] == ppu.spec_winner(sel, n, x, ly).unwrap()) && ppu.spec_spr_shows(
            ppu.oam[ppu.spec_winner(sel, n, x, ly).unwrap() as int],
            x,
            ly,
        ),
    decreases n,
{
    if n > 0 {
        lemma_winner_is_selected(ppu, sel, n - 1, x, ly);
        let w = ppu.spec_winner(sel, n, x, ly);
        if w is Some {
            if w == Some(sel[n - 1]) {
                assert(sel[n - 1] == w.unwrap());
            } else {
                let i = choose|i: int| 0 <= i < n - 1 && sel[i] == ppu.spec_winner(sel, n - 1, x, ly).unwrap();
                assert(sel[i] == w.unwrap());
            }
        }
    }
}

/// The picture unit moves with its clock, whatever is rendered on the
/// way, and reports a frame exactly if the clock enters vertical blanking.
pub proof fn lemma_run_follows_clock(ppu: PPU, n: nat)
    requires
        ppu.wf(),
    ensures
        ppu.spec_run(n).wf(),
        ppu.spec_run(n).clock == ppu.clock.spec_run(n),
        ppu.spec_run_events(n).frame_ready == (ppu.clock.spec_frames(n) > 0),
    decreases n,
{
    if n > 0 {
        crate::ppu::clock::lemma_tick_position(ppu.clock);
        lemma_run_follows_clock(ppu.spec_dot(), (n - 1) as nat);
    }
}

/// Over the 70224 dots of a frame period, from any place in the frame,
/// the picture unit reports a frame, its clock enters vertical blanking
/// exactly once, and the line counter is back where it was. From the
/// start of a frame the line counter stands at each line from 0 to 153 in
/// turn, 456 dots after the line before.
pub proof fn lemma_frame_period(ppu: PPU, line: u8)
    requires
        ppu.wf(),
        line <= VBLANK_LINE_END,
    ensures
        ppu.spec_run(70224).clock == ppu.clock,
        ppu.clock.spec_frames(70224) == 1,
        ppu.spec_run_events(70224).frame_ready,
        ppu.clock == Clock::at(0) ==> ppu.spec_run((line as int * 456) as nat).clock.line == line,
{
    lemma_run_follows_clock(ppu, 70224);
    crate::ppu::clock::lemma_one_frame_per_period(ppu.clock);
    lemma_run_follows_clock(ppu, (line as int * 456) as nat);
    crate::ppu::clock::lemma_lines_in_order(line);
}

/// Rendering a line writes that line of the frame buffer and no other.
pub proof fn lemma_scanline_in_place(ppu: PPU, i: int)
    requires
        ppu.clock.line < SCREEN_HEIGHT,
        0 <= i < FRAME_SIZE,
    ensures
        ppu.spec_render_scanline().map_buffer[i] == (if i / 160 == ppu.clock.line {
            ppu.spec_pixel(i % 160, ppu.clock.line)
        } else {
            ppu.map_buffer[i]
        }),
{
    let ly = ppu.clock.line;
    lemma_blit(ppu.map_buffer, ly as int * 160, ppu.spec_line(ly), 160, i);
}

} // verus!
