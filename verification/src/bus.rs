//! The memory bus: which unit answers for each address, the transfer
//! engine that copies into the sprite table, and the step that moves every
//! unit on by the time an instruction took.
//!
//! | Addresses   | Unit                                  |
//! |-------------|---------------------------------------|
//! | $0000-$7FFF | cartridge ROM                         |
//! | $8000-$9FFF | video memory                          |
//! | $A000-$BFFF | cartridge RAM                         |
//! | $C000-$DFFF | work RAM                              |
//! | $E000-$FDFF | work RAM again                        |
//! | $FE00-$FE9F | sprite table                          |
//! | $FEA0-$FEFF | nothing: reads $FF, ignores writes    |
//! | $FF00       | joypad                                |
//! | $FF04-$FF07 | timer                                 |
//! | $FF0F       | interrupt requests                    |
//! | $FF40-$FF4B | picture unit; $FF46 starts a transfer |
//! | $FF80-$FFFE | high RAM                              |
//! | $FFFF       | interrupt enable                      |
//! | other $FFxx | plain storage                         |

use vstd::prelude::*;
use vstd::array::spec_array_update;
use crate::cartridge::Cart;
use crate::cartridge::CartError;
use crate::cartridge::EXT_RAM_START;
use crate::cartridge::EXT_RAM_STOP;
use crate::cartridge::ROM_STOP;
use crate::cpu::timer::Timer;
use crate::cpu::timer::DIV;
use crate::cpu::timer::DIV_RESET;
use crate::cpu::timer::TAC;
use crate::interrupt::Interrupt;
use crate::interrupt::Interrupts;
use crate::interrupt::IE;
use crate::interrupt::IF;
use crate::io::Buttons;
use crate::io::IO;
use crate::ppu::spec_is_in_oam;
use crate::ppu::spec_is_in_regs;
use crate::ppu::spec_is_in_vram;
use crate::ppu::PPU;
use crate::ppu::LCDC;
use crate::ppu::OAM_MEM;
use crate::ppu::OAM_MEM_END;
use crate::ppu::VRAM_END;
use crate::ppu::VRAM_START;
use crate::ppu::WX;
use crate::utils::FRAME_SIZE;

verus! {

pub const WRAM_SIZE: usize = 0x2000;

pub const HRAM_SIZE: usize = 127;

pub const IO_SIZE: usize = 0x80;

pub const WRAM_START: u16 = 0xC000;

pub const WRAM_END: u16 = 0xDFFF;

pub const ECHO_START: u16 = 0xE000;

pub const ECHO_END: u16 = 0xFDFF;

pub const UNUSED_START: u16 = 0xFEA0;

pub const UNUSED_END: u16 = 0xFEFF;

pub const IO_START: u16 = 0xFF00;

pub const JOYPAD: u16 = 0xFF00;

/// Writing a page number here starts a transfer.
pub const DMA: u16 = 0xFF46;

pub const HRAM_START: u16 = 0xFF80;

pub const HRAM_END: u16 = 0xFFFE;

/// Bytes that one transfer copies, one in each machine cycle.
pub const DMA_LEN: u8 = 160;

/// What the plain registers of $FF00-$FF7F hold at power-on, by offset
/// from $FF00. The sound registers at $FF10-$FF26 are the only ones that
/// do not start at zero.
pub const RESET_IO_REGS: [u8; IO_SIZE] = [
    0x00, 0x00, 0x00, 0x00, 0x00, 0x00, 0x00, 0x00, 0x00, 0x00, 0x00, 0x00, 0x00, 0x00, 0x00, 0x00,
    0x80, 0xBF, 0xF3, 0x00, 0xBF, 0x00, 0x3F, 0x00, 0x00, 0xBF, 0x7F, 0xFF, 0x9F, 0x00, 0xBF, 0x00,
    0xFF, 0x00, 0x00, 0xBF, 0x77, 0xF3, 0xF1, 0x00, 0x00, 0x00, 0x00, 0x00, 0x00, 0x00, 0x00, 0x00,
    0x00, 0x00, 0x00, 0x00, 0x00, 0x00, 0x00, 0x00, 0x00, 0x00, 0x00, 0x00, 0x00, 0x00, 0x00, 0x00,
    0x00, 0x00, 0x00, 0x00, 0x00, 0x00, 0x00, 0x00, 0x00, 0x00, 0x00, 0x00, 0x00, 0x00, 0x00, 0x00,
    0x00, 0x00, 0x00, 0x00, 0x00, 0x00, 0x00, 0x00, 0x00, 0x00, 0x00, 0x00, 0x00, 0x00, 0x00, 0x00,
    0x00, 0x00, 0x00, 0x00, 0x00, 0x00, 0x00, 0x00, 0x00, 0x00, 0x00, 0x00, 0x00, 0x00, 0x00, 0x00,
    0x00, 0x00, 0x00, 0x00, 0x00, 0x00, 0x00, 0x00, 0x00, 0x00, 0x00, 0x00, 0x00, 0x00, 0x00, 0x00,
];

pub open spec fn spec_is_in_hram(addr: u16) -> bool {
    HRAM_START <= addr <= HRAM_END
}

pub open spec fn spec_is_in_wram(addr: u16) -> bool {
    WRAM_START <= addr <= ECHO_END
}

/// Place in work RAM of an address of work RAM or of its echo.
pub open spec fn spec_wram_index(addr: u16) -> int {
    if addr <= WRAM_END {
        addr - WRAM_START
    } else {
        addr - ECHO_START
    }
}

pub struct Bus {
    pub cart: Cart,
    pub ppu: PPU,
    pub timer: Timer,
    pub io: IO,
    pub interrupts: Interrupts,
    pub wram: [u8; WRAM_SIZE],
    pub hram: [u8; HRAM_SIZE],
    /// Storage behind the addresses of $FF00-$FF7F that no unit answers
    /// for, by offset from $FF00.
    pub io_regs: [u8; IO_SIZE],
    /// Page that the transfer in progress, or the last one, copies from.
    pub dma_src: u8,
    /// Bytes that the transfer in progress still has to copy.
    pub dma_left: u8,
}

impl Bus {
    pub open spec fn wf(self) -> bool {
        &&& self.ppu.wf()
        &&& self.dma_left <= DMA_LEN
    }

    /// The state at power-on: all memory zero, no cartridge, the
    /// picture unit at the first dot of a frame, and the registers as the
    /// boot program leaves them.
    pub open spec fn spec_is_reset(self) -> bool {
        &&& self.io_regs == RESET_IO_REGS
        &&& self.timer == (Timer { div: DIV_RESET, tima: 0, tma: 0, tac: 0, tima_cooldown: 0 })
        &&& self.interrupts == (Interrupts { flag: 0, enable: 0 })
        &&& self.dma_left == 0
        &&& self.dma_src == 0
        &&& self.cart.rom@.len() == 0
        &&& self.ppu.clock == crate::ppu::clock::Clock::at(0)
        &&& self.ppu.lcdc == 0x91
        &&& self.ppu.stat == 0x00
        &&& self.ppu.scy == 0x00
        &&& self.ppu.scx == 0x00
        &&& self.ppu.lyc == 0x00
        &&& self.ppu.bgp == 0xFC
        &&& self.ppu.obp0 == 0xFF
        &&& self.ppu.obp1 == 0xFF
        &&& self.ppu.wy == 0x00
        &&& self.ppu.wx == 0x00
        &&& self.ppu.window_line == 0
        &&& self.ppu.palette.sys_pal == crate::ppu::palette::Palettes::GRAYSCALE
        &&& !self.io.get_btn_keys
        &&& !self.io.get_dir_keys
        &&& forall|i: int| 0 <= i < 8 ==> !self.io.btns[i]
        &&& forall|i: int| 0 <= i < WRAM_SIZE ==> self.wram[i] == 0
        &&& forall|i: int| 0 <= i < HRAM_SIZE ==> self.hram[i] == 0
        &&& forall|i: int| 0 <= i < crate::ppu::VRAM_SIZE ==> self.ppu.vram[i] == 0
        &&& forall|i: int| 0 <= i < FRAME_SIZE ==> self.ppu.map_buffer[i] == 0
        &&& forall|i: int| 0 <= i < crate::ppu::OAM_SPR_NUM ==> (#[trigger] self.ppu.oam[i]).spec_is_blank()
        &&& self.cart.spec_fresh()
    }

    pub open spec fn spec_dma_active(self) -> bool {
        self.dma_left > 0
    }

    /// The byte that the unit answering for `addr` holds there, with
    /// nothing shut.
    #[verifier::opaque]
    pub open spec fn spec_peek(self, addr: u16) -> u8 {
        if addr <= ROM_STOP {
            self.cart.spec_read(addr)
        } else if addr <= VRAM_END {
            self.ppu.spec_peek(addr)
        } else if addr <= EXT_RAM_STOP {
            self.cart.spec_read(addr)
        } else if addr <= ECHO_END {
            self.wram[spec_wram_index(addr)]
        } else if addr <= OAM_MEM_END {
            self.ppu.spec_peek(addr)
        } else if addr <= UNUSED_END {
            0xFF
        } else if addr == JOYPAD {
            self.io.spec_read()
        } else if DIV <= addr <= TAC {
            self.timer.spec_read(addr)
        } else if addr == IF {
            self.interrupts.spec_read_flag()
        } else if addr == DMA {
            self.dma_src
        } else if spec_is_in_regs(addr) {
            self.ppu.spec_peek(addr)
        } else if addr < HRAM_START {
            self.io_regs[addr - IO_START]
        } else if addr <= HRAM_END {
            self.hram[addr - HRAM_START]
        } else {
            self.interrupts.enable
        }
    }

    /// Whether the program can reach `addr` now. During a transfer it
    /// reaches high RAM only; video memory and the sprite table are shut
    /// as the mode of the picture unit says.
    pub open spec fn spec_is_open(self, addr: u16) -> bool {
        if self.spec_dma_active() {
            spec_is_in_hram(addr)
        } else {
            self.ppu.spec_is_valid_status(addr)
        }
    }

    /// What the program reads at `addr`: $FF where it cannot reach.
    pub open spec fn spec_read(self, addr: u16) -> u8 {
        if self.spec_is_open(addr) {
            self.spec_peek(addr)
        } else {
            0xFF
        }
    }

    /// The bus after the program wrote `val` to `addr`. A write to video
    /// memory or to the sprite table is dropped while the picture unit
    /// has them shut.
    #[verifier::opaque]
    pub open spec fn spec_write(self, addr: u16, val: u8) -> Bus {
        if addr <= ROM_STOP {
            Bus { cart: self.cart.spec_write(addr, val), ..self }
        } else if addr <= VRAM_END {
            Bus { ppu: self.ppu.spec_write(addr, val), ..self }
        } else if addr <= EXT_RAM_STOP {
            Bus { cart: self.cart.spec_write(addr, val), ..self }
        } else if addr <= ECHO_END {
            Bus { wram: spec_array_update(self.wram, spec_wram_index(addr), val), ..self }
        } else if addr <= OAM_MEM_END {
            Bus { ppu: self.ppu.spec_write(addr, val), ..self }
        } else if addr <= UNUSED_END {
            self
        } else if addr == JOYPAD {
            Bus { io: self.io.spec_poll(val), ..self }
        } else if DIV <= addr <= TAC {
            Bus { timer: self.timer.spec_write(addr, val), ..self }
        } else if addr == IF {
            Bus { interrupts: self.interrupts.spec_write_flag(val), ..self }
        } else if addr == DMA {
            Bus { dma_src: val, dma_left: DMA_LEN, ..self }
        } else if spec_is_in_regs(addr) {
            Bus { ppu: self.ppu.spec_write(addr, val), ..self }
        } else if addr < HRAM_START {
            Bus { io_regs: spec_array_update(self.io_regs, addr - IO_START, val), ..self }
        } else if addr <= HRAM_END {
            Bus { hram: spec_array_update(self.hram, addr - HRAM_START, val), ..self }
        } else {
            Bus { interrupts: self.interrupts.spec_write_enable(val), ..self }
        }
    }

    /// Address that the transfer in progress copies from next.
    pub open spec fn spec_dma_source(self) -> u16 {
        (self.dma_src as int * 256 + (DMA_LEN - self.dma_left)) as u16
    }

    /// The bus one machine cycle of transfer later: while a transfer is
    /// in progress, its next byte is copied into the sprite table.
    pub open spec fn spec_dma_step(self) -> Bus {
        if self.dma_left == 0 {
            self
        } else {
            Bus {
                ppu: self.ppu.spec_poke(
                    (OAM_MEM + (DMA_LEN - self.dma_left)) as u16,
                    self.spec_peek(self.spec_dma_source()),
                ),
                dma_left: (self.dma_left - 1) as u8,
                ..self
            }
        }
    }

    /// The bus `n` machine cycles of transfer later.
    pub open spec fn spec_dma_run(self, n: nat) -> Bus
        decreases n,
    {
        if n == 0 {
            self
        } else {
            self.spec_dma_step().spec_dma_run((n - 1) as nat)
        }
    }

    /// The bus after the units were moved on by `m_cycles` machine
    /// cycles: the timer, then the picture unit by four dots for each
    /// cycle, each requesting its interrupts, then the transfer engine.
    pub open spec fn spec_advance(self, m_cycles: u8) -> Bus {
        let timer = self.timer.spec_run(4 * m_cycles as nat);
        let ppu = self.ppu.spec_run(4 * m_cycles as nat);
        let events = self.ppu.spec_run_events(4 * m_cycles as nat);
        let interrupts = self.interrupts.spec_request_if(
            self.timer.spec_run_interrupts(4 * m_cycles as nat),
            Interrupt::Timer,
        ).spec_request_if(events.frame_ready, Interrupt::VBlank).spec_request_if(
            events.stat_interrupt,
            Interrupt::Stat,
        );
        (Bus { timer, ppu, interrupts, ..self }).spec_dma_run(m_cycles as nat)
    }

    /// Whether moving the units on by `m_cycles` machine cycles
    /// completes a frame.
    pub open spec fn spec_advance_frame(self, m_cycles: u8) -> bool {
        self.ppu.spec_run_events(4 * m_cycles as nat).frame_ready
    }

    /// The bus after a key went down or up: the joypad records it, and
    /// the joypad interrupt is requested if a key bit that reads show
    /// went from set to clear.
    pub open spec fn spec_button_event(self, btn: Buttons, pressed: bool) -> Bus {
        Bus {
            io: self.io.spec_toggle(btn, pressed),
            interrupts: self.interrupts.spec_request_if(
                self.io.spec_toggle_interrupts(btn, pressed),
                Interrupt::Joypad,
            ),
            ..self
        }
    }

    /// A bus with an empty cartridge slot, all memory zero and every
    /// unit in its initial state.
    pub fn new() -> (bus: Bus)
        ensures
            bus.wf(),
            bus.dma_left == 0,
            bus.dma_src == 0,
            bus.interrupts == (Interrupts { flag: 0, enable: 0 }),
            bus.timer == (Timer { div: DIV_RESET, tima: 0, tma: 0, tac: 0, tima_cooldown: 0 }),
            bus.ppu.clock == crate::ppu::clock::Clock::at(0),
            bus.ppu.stat == 0,
            bus.ppu.window_line == 0,
            bus.ppu.palette.sys_pal == crate::ppu::palette::Palettes::GRAYSCALE,
            bus.ppu.lcdc == 0 && bus.ppu.scy == 0 && bus.ppu.scx == 0 && bus.ppu.lyc == 0,
            bus.ppu.bgp == 0 && bus.ppu.obp0 == 0 && bus.ppu.obp1 == 0 && bus.ppu.wy == 0 && bus.ppu.wx == 0,
            !bus.io.get_btn_keys,
            !bus.io.get_dir_keys,
            forall|i: int| 0 <= i < 8 ==> !bus.io.btns[i],
            forall|i: int| 0 <= i < crate::ppu::VRAM_SIZE ==> bus.ppu.vram[i] == 0,
            forall|i: int| 0 <= i < FRAME_SIZE ==> bus.ppu.map_buffer[i] == 0,
            forall|i: int| 0 <= i < crate::ppu::OAM_SPR_NUM ==> (#[trigger] bus.ppu.oam[i]).spec_is_blank(),
            bus.cart.spec_fresh(),
            bus.cart.mbc == crate::cartridge::MBC::NONE,
            bus.cart.rom@.len() == 0,
            forall|i: int| 0 <= i < WRAM_SIZE ==> bus.wram[i] == 0,
            forall|i: int| 0 <= i < HRAM_SIZE ==> bus.hram[i] == 0,
            forall|i: int| 0 <= i < IO_SIZE ==> bus.io_regs[i] == 0,
    {
        Bus {
            cart: Cart::new(),
            ppu: PPU::new(),
            timer: Timer::new(),
            io: IO::new(),
            interrupts: Interrupts::new(),
            wram: [0u8; WRAM_SIZE],
            hram: [0u8; HRAM_SIZE],
            io_regs: [0u8; IO_SIZE],
            dma_src: 0,
            dma_left: 0,
        }
    }

    /// Whether the units on the bus are in order.
    pub fn is_wf(&self) -> (ok: bool)
        ensures
            ok == self.wf(),
    {
        self.ppu.is_wf() && self.dma_left <= DMA_LEN
    }

    /// Puts the registers in the state that the boot program leaves
    /// them in.
    pub fn power_on(&mut self)
        requires
            old(self).wf(),
        ensures
            final(self).wf(),
            final(self).io_regs == RESET_IO_REGS,
            final(self).timer == (Timer { div: DIV_RESET, tima: 0, tma: 0, tac: 0, tima_cooldown: 0 }),
            final(self).ppu == (PPU {
                lcdc: 0x91,
                scy: 0x00,
                scx: 0x00,
                lyc: 0x00,
                bgp: 0xFC,
                obp0: 0xFF,
                obp1: 0xFF,
                wy: 0x00,
                wx: 0x00,
                ..old(self).ppu
            }),
            *final(self) == (Bus {
                io_regs: final(self).io_regs,
                timer: final(self).timer,
                ppu: final(self).ppu,
                ..*old(self)
            }),
    {
        self.io_regs = RESET_IO_REGS;
        self.timer = Timer::new();
        self.ppu.lcdc = 0x91;
        self.ppu.scy = 0x00;
        self.ppu.scx = 0x00;
        self.ppu.lyc = 0x00;
        self.ppu.bgp = 0xFC;
        self.ppu.obp0 = 0xFF;
        self.ppu.obp1 = 0xFF;
        self.ppu.wy = 0x00;
        self.ppu.wx = 0x00;
    }

    /// Loads a cartridge image.
    pub fn load_game(&mut self, rom: &[u8]) -> (result: Result<(), CartError>)
        ensures
            rom@.len() < 0x150 <==> result == Err::<(), CartError>(CartError::RomTooSmall),
            rom@.len() >= 0x150 && crate::cartridge::spec_mbc_of(rom@[0x147]) is None <==> result == Err::<
                (),
                CartError,
            >(CartError::UnsupportedMBC),
            result is Err ==> *final(self) == *old(self),
            result is Ok ==> {
                &&& *final(self) == (Bus { cart: final(self).cart, ..*old(self) })
                &&& final(self).cart.rom@ == rom@
                &&& Some(final(self).cart.mbc) == crate::cartridge::spec_mbc_of(rom@[0x147])
                &&& final(self).cart.ram_size == crate::cartridge::spec_ram_size_of(final(self).cart.mbc)
                &&& final(self).cart.spec_fresh()
            },
            result is Ok ==> forall|addr: u16|
                addr < 0x4000 && addr < rom@.len() ==> #[trigger] final(self).spec_peek(addr) == rom@[addr as int],
    {
        let result = self.cart.load_cart(rom);
        proof {
            reveal(Bus::spec_peek);
            if result is Ok {
                assert forall|addr: u16| addr < 0x4000 && addr < rom@.len() implies #[trigger] self.spec_peek(
                    addr,
                ) == rom@[addr as int] by {
                    assert(self.cart.spec_read(addr) == rom@[addr as int]);
                }
            }
        }
        result
    }

    /// Reads the byte that the unit answering for `addr` holds,
    /// with nothing shut.
    pub fn peek_ram(&self, addr: u16) -> (val: u8)
        ensures
            val == self.spec_peek(addr),
    {
        reveal(Bus::spec_peek);
        if addr <= ROM_STOP {
            self.cart.read_cart(addr)
        } else if addr <= VRAM_END {
            self.ppu.peek_vram(addr)
        } else if addr <= EXT_RAM_STOP {
            self.cart.read_cart(addr)
        } else if addr <= WRAM_END {
            self.wram[(addr - WRAM_START) as usize]
        } else if addr <= ECHO_END {
            self.wram[(addr - ECHO_START) as usize]
        } else if addr <= OAM_MEM_END {
            self.ppu.peek_vram(addr)
        } else if addr <= UNUSED_END {
            0xFF
        } else if addr == JOYPAD {
            self.io.read_btns()
        } else if DIV <= addr && addr <= TAC {
            self.timer.read_timer(addr)
        } else if addr == IF {
            self.interrupts.read_flag()
        } else if addr == DMA {
            self.dma_src
        } else if LCDC <= addr && addr <= WX {
            self.ppu.peek_vram(addr)
        } else if addr < HRAM_START {
            self.io_regs[(addr - IO_START) as usize]
        } else if addr <= HRAM_END {
            self.hram[(addr - HRAM_START) as usize]
        } else {
            self.interrupts.enable
        }
    }

    /// Whether the program can reach `addr` now.
    pub fn is_open(&self, addr: u16) -> (open: bool)
        ensures
            open == self.spec_is_open(addr),
    {
        if self.dma_left > 0 {
            HRAM_START <= addr && addr <= HRAM_END
        } else {
            self.ppu.is_valid_status(addr)
        }
    }

    /// Reads a byte for the program.
    pub fn read_ram(&self, addr: u16) -> (val: u8)
        ensures
            val == self.spec_read(addr),
    {
        if self.is_open(addr) {
            self.peek_ram(addr)
        } else {
            0xFF
        }
    }

    /// Writes a byte for the program.
    pub fn write_ram(&mut self, addr: u16, val: u8)
        requires
            old(self).wf(),
        ensures
            *final(self) == old(self).spec_write(addr, val),
            final(self).wf(),
    {
        reveal(Bus::spec_write);
        if addr <= ROM_STOP {
            self.cart.write_cart(addr, val);
        } else if addr <= VRAM_END {
            self.ppu.write_vram(addr, val);
        } else if addr <= EXT_RAM_STOP {
            self.cart.write_cart(addr, val);
        } else if addr <= WRAM_END {
            self.wram[(addr - WRAM_START) as usize] = val;
        } else if addr <= ECHO_END {
            self.wram[(addr - ECHO_START) as usize] = val;
        } else if addr <= OAM_MEM_END {
            self.ppu.write_vram(addr, val);
        } else if addr <= UNUSED_END {
        } else if addr == JOYPAD {
            self.io.poll_btns(val);
        } else if DIV <= addr && addr <= TAC {
            self.timer.write_timer(addr, val);
        } else if addr == IF {
            self.interrupts.write_flag(val);
        } else if addr == DMA {
            self.dma_src = val;
            self.dma_left = DMA_LEN;
        } else if LCDC <= addr && addr <= WX {
            self.ppu.write_vram(addr, val);
        } else if addr < HRAM_START {
            self.io_regs[(addr - IO_START) as usize] = val;
        } else if addr <= HRAM_END {
            self.hram[(addr - HRAM_START) as usize] = val;
        } else {
            self.interrupts.write_enable(val);
        }
    }

    /// Moves the transfer engine on by one machine cycle.
    pub fn dma_step(&mut self)
        requires
            old(self).wf(),
        ensures
            *final(self) == old(self).spec_dma_step(),
            final(self).wf(),
    {
        if self.dma_left > 0 {
            let offset = (DMA_LEN - self.dma_left) as u16;
            let source = (self.dma_src as u16) * 256 + offset;
            let byte = self.peek_ram(source);
            self.ppu.poke_vram(OAM_MEM + offset, byte);
            self.dma_left = self.dma_left - 1;
        }
    }

    /// Moves every unit on by the `m_cycles` machine cycles that an
    /// instruction took. Says whether a frame was completed.
    pub fn advance(&mut self, m_cycles: u8) -> (frame_ready: bool)
        requires
            old(self).wf(),
        ensures
            *final(self) == old(self).spec_advance(m_cycles),
            frame_ready == old(self).spec_advance_frame(m_cycles),
            final(self).wf(),
    {
        let timer_interrupt = self.timer.tick(m_cycles);
        let events = self.ppu.step(4 * (m_cycles as u16));
        self.interrupts.request_if(timer_interrupt, Interrupt::Timer);
        self.interrupts.request_if(events.frame_ready, Interrupt::VBlank);
        self.interrupts.request_if(events.stat_interrupt, Interrupt::Stat);
        let ghost start = *self;
        let mut left: u8 = m_cycles;
        while left > 0
            invariant
                self.wf(),
                self.spec_dma_run(left as nat) == start.spec_dma_run(m_cycles as nat),
            decreases left,
        {
            self.dma_step();
            left = left - 1;
        }
        events.frame_ready
    }

    /// Records that a key went down or up.
    pub fn button_event(&mut self, btn: Buttons, pressed: bool)
        ensures
            *final(self) == old(self).spec_button_event(btn, pressed),
    {
        let interrupt = self.io.toggle_interrupts(btn, pressed);
        self.io.btn_toggle(btn, pressed);
        self.interrupts.request_if(interrupt, Interrupt::Joypad);
    }

    /// The frame buffer: one 2-bit shade for each pixel.
    pub fn framebuffer(&self) -> (pixels: &[u8; FRAME_SIZE])
        ensures
            *pixels == self.ppu.map_buffer,
    {
        &self.ppu.map_buffer
    }

    /// The cartridge's RAM, for the host to save.
    pub fn external_ram(&self) -> (ram: &[u8])
        ensures
            ram@ == self.cart.ram@.subrange(0, self.cart.spec_ram_len()),
    {
        self.cart.get_ext_ram()
    }
}

/// Where a byte that the program writes can be read back by it: in high
/// RAM always, and in work RAM and its echo while no transfer is in
/// progress.
pub open spec fn spec_holds_writes(bus: Bus, addr: u16) -> bool {
    spec_is_in_hram(addr) || (spec_is_in_wram(addr) && !bus.spec_dma_active())
}

/// A byte written to RAM is read back from the address it was written to,
/// and a write to RAM changes no other address of RAM.
pub proof fn lemma_ram_write_read(bus: Bus, addr: u16, val: u8, other: u16)
    requires
        spec_holds_writes(bus, addr),
    ensures
        bus.spec_write(addr, val).spec_read(addr) == val,
        spec_holds_writes(bus, other) && spec_ram_place(other) != spec_ram_place(addr) ==> bus.spec_write(
            addr,
            val,
        ).spec_read(other) == bus.spec_read(other),
        spec_holds_writes(bus.spec_write(addr, val), other) == spec_holds_writes(bus, other),
        bus.spec_write(addr, val).dma_left == bus.dma_left,
{
    reveal(Bus::spec_peek);
    reveal(Bus::spec_write);
}

/// The byte of RAM behind an address: work RAM and its echo share their
/// bytes.
pub open spec fn spec_ram_place(addr: u16) -> int {
    if spec_is_in_wram(addr) {
        spec_wram_index(addr)
    } else {
        addr as int
    }
}

/// Whatever is written to the divider register, the program's next read
/// of it returns 0, unless a transfer keeps the program from the register:
/// then the read returns $FF, as every read outside high RAM does.
pub proof fn lemma_bus_div_write_clears(bus: Bus, val: u8)
    ensures
        bus.spec_write(DIV, val).spec_peek(DIV) == 0,
        !bus.spec_dma_active() ==> bus.spec_write(DIV, val).spec_read(DIV) == 0,
{
    reveal(Bus::spec_peek);
    reveal(Bus::spec_write);
}

/// The transfer engine leaves the clock of the picture unit alone.
pub proof fn lemma_dma_keeps_clock(bus: Bus, n: nat)
    ensures
        bus.spec_dma_run(n).ppu.clock == bus.ppu.clock,
    decreases n,
{
    reveal(PPU::spec_poke);
    if n > 0 {
        lemma_dma_keeps_clock(bus.spec_dma_step(), (n - 1) as nat);
    }
}

/// Moving the units on by some machine cycles moves the clock of the
/// picture unit by four dots for each, and completes a frame exactly if
/// the clock enters vertical blanking on the way.
pub proof fn lemma_advance_follows_clock(bus: Bus, m_cycles: u8)
    requires
        bus.ppu.wf(),
    ensures
        bus.spec_advance(m_cycles).ppu.clock == bus.ppu.clock.spec_run(4 * m_cycles as nat),
        bus.spec_advance(m_cycles).ppu.wf(),
        bus.spec_advance_frame(m_cycles) == (bus.ppu.clock.spec_frames(4 * m_cycles as nat) > 0),
{
    crate::ppu::lemma_run_follows_clock(bus.ppu, 4 * m_cycles as nat);
    lemma_dma_keeps_clock(
        Bus {
            timer: bus.timer.spec_run(4 * m_cycles as nat),
            ppu: bus.ppu.spec_run(4 * m_cycles as nat),
            interrupts: bus.interrupts.spec_request_if(
                bus.timer.spec_run_interrupts(4 * m_cycles as nat),
                Interrupt::Timer,
            ).spec_request_if(
                bus.ppu.spec_run_events(4 * m_cycles as nat).frame_ready,
                Interrupt::VBlank,
            ).spec_request_if(bus.ppu.spec_run_events(4 * m_cycles as nat).stat_interrupt, Interrupt::Stat),
            ..bus
        },
        m_cycles as nat,
    );
}

/// Work RAM shows a second time, $2000 above itself: a byte reads the
/// same at both addresses, and a write to either is a write to both.
pub proof fn lemma_echo(bus: Bus, addr: u16, val: u8)
    requires
        WRAM_START <= addr <= 0xDDFF,
    ensures
        bus.spec_peek((addr + 0x2000) as u16) == bus.spec_peek(addr),
        bus.spec_write((addr + 0x2000) as u16, val) == bus.spec_write(addr, val),
{
    reveal(Bus::spec_peek);
    reveal(Bus::spec_write);
}

/// Where the program cannot reach, it reads $FF; and what it writes to
/// video memory or to the sprite table, while the picture unit has them
/// shut, is lost.
pub proof fn lemma_shut_memory(bus: Bus, addr: u16, val: u8)
    requires
        !bus.spec_is_open(addr),
    ensures
        bus.spec_read(addr) == 0xFF,
        (spec_is_in_vram(addr) || spec_is_in_oam(addr)) && !bus.ppu.spec_is_valid_status(addr)
            ==> bus.spec_write(addr, val) == bus,
{
    reveal(Bus::spec_write);
}

/// Address in the sprite table that the transfer in progress writes next.
pub open spec fn spec_dma_target(bus: Bus) -> int {
    OAM_MEM + (DMA_LEN - bus.dma_left)
}

/// One machine cycle of a transfer stores the byte at the source address
/// at its place in the sprite table, and changes no other byte that the
/// bus shows.
pub proof fn lemma_dma_step(bus: Bus, other: u16)
    requires
        0 < bus.dma_left <= DMA_LEN,
    ensures
        bus.spec_dma_step().spec_peek(spec_dma_target(bus) as u16) == bus.spec_peek(bus.spec_dma_source()),
        other != spec_dma_target(bus) ==> bus.spec_dma_step().spec_peek(other) == bus.spec_peek(other),
        bus.spec_dma_step().dma_src == bus.dma_src,
        bus.spec_dma_step().dma_left == bus.dma_left - 1,
{
    reveal(Bus::spec_peek);
    crate::ppu::lemma_poke_oam(
        bus.ppu,
        spec_dma_target(bus) as u16,
        bus.spec_peek(bus.spec_dma_source()),
        other,
    );
}

/// A transfer changes no byte that the bus shows but those of the
/// sprite table that it has still to write.
pub proof fn lemma_dma_run_keeps(bus: Bus, n: nat, addr: u16)
    requires
        bus.dma_left <= DMA_LEN,
        addr < spec_dma_target(bus) || addr > OAM_MEM_END,
    ensures
        bus.spec_dma_run(n).spec_peek(addr) == bus.spec_peek(addr),
        bus.spec_dma_run(n).dma_src == bus.dma_src,
    decreases n,
{
    if n > 0 {
        if bus.dma_left > 0 {
            lemma_dma_step(bus, addr);
        }
        lemma_dma_run_keeps(bus.spec_dma_step(), (n - 1) as nat, addr);
    }
}

/// The first `n` machine cycles of what is left of a transfer copy the
/// next `n` bytes of the source page to their places in the sprite
/// table. The page must not be the sprite table's own.
pub proof fn lemma_dma_copies(bus: Bus, n: nat, j: int)
    requires
        bus.dma_left <= DMA_LEN,
        n <= bus.dma_left,
        0 <= j < n,
        bus.dma_src != 0xFE,
    ensures
        bus.spec_dma_run(n).spec_peek((spec_dma_target(bus) + j) as u16) == bus.spec_peek(
            (bus.spec_dma_source() + j) as u16,
        ),
    decreases n,
{
    let next = bus.spec_dma_step();
    lemma_dma_step(bus, (bus.spec_dma_source() + j) as u16);
    if j == 0 {
        lemma_dma_run_keeps(next, (n - 1) as nat, spec_dma_target(bus) as u16);
    } else {
        lemma_dma_copies(next, (n - 1) as nat, j - 1);
    }
}

/// A write to the transfer register starts a transfer that copies the
/// first 160 bytes of the page written, as they are after the write, into
/// the sprite table, byte for byte, and is over after 160 machine cycles.
pub proof fn lemma_dma_transfer(bus: Bus, page: u8, j: int)
    requires
        bus.wf(),
        page != 0xFE,
        0 <= j < DMA_LEN,
    ensures
        bus.spec_write(DMA, page) == (Bus { dma_src: page, dma_left: DMA_LEN, ..bus }),
        bus.spec_write(DMA, page).spec_dma_run(160).spec_peek((OAM_MEM + j) as u16) == bus.spec_write(
            DMA,
            page,
        ).spec_peek((page as int * 256 + j) as u16),
        bus.spec_write(DMA, page).spec_dma_run(160).dma_left == 0,
{
    let started = bus.spec_write(DMA, page);
    assert(started == (Bus { dma_src: page, dma_left: DMA_LEN, ..bus })) by {
        reveal(Bus::spec_write);
    }
    lemma_dma_copies(started, 160, j);
    lemma_dma_progress(started, 160);
}

/// A transfer counts down by one byte in each machine cycle and is over
/// after as many cycles as it had bytes left.
pub proof fn lemma_dma_progress(bus: Bus, n: nat)
    requires
        bus.wf(),
    ensures
        bus.spec_dma_run(n).dma_left == (if n >= bus.dma_left { 0int } else { bus.dma_left - n }),
        bus.spec_dma_run(n).wf(),
    decreases n,
{
    reveal(PPU::spec_poke);
    if n > 0 {
        lemma_dma_progress(bus.spec_dma_step(), (n - 1) as nat);
    }
}

} // verus!
