//! The Game Boy Advance core: an ARM7TDMI CPU and a memory bus with its PPU, timers and
//! DMA, stepped together one instruction at a time.
pub mod regs;
pub mod cpu;
pub mod timer;
pub mod dma;
pub mod ppu;
pub mod bus;
pub mod arm;
pub mod hle;
pub mod thumb;
pub mod irq;

use vstd::prelude::*;
use crate::common::{HeadlessCore, StepResult};
use crate::gba::bus::{Bus, GbaBusModel};
use crate::gba::cpu::{Cpu, GbaState, cpu_step, gba_state, post_boot};
use crate::gba::ppu::{SCREEN_HEIGHT, SCREEN_WIDTH};
use crate::gba::regs::RegsModel;
use crate::text::{trim_chars};
use vstd::utf8::{valid_utf8, decode_utf8};

verus! {

/// CPU cycles in a frame: 228 lines of 1232 cycles.
pub const FRAME_CYCLES: u32 = 280_896;

/// The machine as a value.
pub struct GbaModel {
    pub state: GbaState,
    pub cycles: u64,
}

impl GbaModel {
    /// One step: the CPU step, then the timers, PPU and DMA for its cycles; the cycle total
    /// grows by them, wrapping at 2^64. `None` where a write or a triggered DMA starts a
    /// transfer that does not end.
    pub open spec fn step(self) -> Option<(GbaModel, StepResult)> {
        match cpu_step(self.state) {
            None => None,
            Some((s, c)) => if c <= u32::MAX - 1232 && s.bus.tick_ok(c) {
                let s2 = GbaState { bus: s.bus.after_tick(c), ..s };
                Some((GbaModel { state: s2, cycles: self.cycles.wrapping_add(c as u64) }, StepResult { cycles: c, halted: s2.halted }))
            } else {
                None
            },
        }
    }

    /// Steps until `FRAME_CYCLES` cycles have run since `done` of them, within `n` steps;
    /// `None` where a step cannot be taken or the steps run out.
    pub open spec fn frame_run(self, done: u32, n: nat) -> Option<GbaModel>
        decreases n,
    {
        if done >= FRAME_CYCLES {
            Some(self)
        } else if n == 0 {
            None
        } else {
            match self.step() {
                None => None,
                Some((m2, sr)) => if done + sr.cycles > u32::MAX {
                    None
                } else {
                    m2.frame_run((done + sr.cycles) as u32, (n - 1) as nat)
                },
            }
        }
    }
}

/// The title in a game pak header: bytes 0xA0-0xAB, decoded as UTF-8 and trimmed; "GBA
/// GAME" when the ROM is too short for it or the bytes are not UTF-8.
pub open spec fn gba_title(rom: Seq<u8>) -> Seq<char> {
    if rom.len() > 0xA0 {
        let end: int = if rom.len() < 0xAC { rom.len() as int } else { 0xAC };
        let field = rom.subrange(0xA0, end);
        if valid_utf8(field) { trim_chars(decode_utf8(field)) } else { "GBA GAME"@ }
    } else {
        "GBA GAME"@
    }
}

/// A Game Boy Advance: CPU and bus, stepped together.
#[derive(Debug)]
pub struct GameBoyAdvance {
    /// The processor.
    pub cpu: Cpu,
    /// The memory bus, with the PPU, timers and DMA.
    pub bus: Bus,
    /// CPU cycles run since the machine started.
    pub cycles: u64,
}

impl View for GameBoyAdvance {
    type V = GbaModel;

    open spec fn view(&self) -> GbaModel {
        GbaModel { state: gba_state(&self.cpu, self.bus@), cycles: self.cycles }
    }
}

impl Default for GameBoyAdvance {
    /// A machine at power-on with no game pak, before boot.
    fn default() -> (g: Self)
        ensures
            g@.state.regs == RegsModel::initial(),
            !g@.state.halted,
            g@.state.bus == GbaBusModel::initial(Seq::empty()),
            g@.cycles == 0,
            g.bus.wf(),
    {
        GameBoyAdvance { cpu: Cpu::default(), bus: Bus::default(), cycles: 0 }
    }
}

impl GameBoyAdvance {
    /// A machine with no game pak in the state the BIOS leaves at boot.
    pub fn new() -> (g: Self)
        ensures
            g@.state.regs == post_boot(RegsModel::initial()),
            !g@.state.halted,
            g@.state.bus == GbaBusModel::initial(Seq::empty()),
            g@.cycles == 0,
            g.bus.wf(),
    {
        let mut gba = GameBoyAdvance::default();
        gba.cpu.init_post_boot();
        gba
    }

    /// A machine with `rom` inserted in the state the BIOS leaves at boot; never fails.
    pub fn from_rom_bytes(rom: Vec<u8>) -> (r: Result<Self, core::convert::Infallible>)
        ensures
            r matches Ok(g) && g@.state.regs == post_boot(RegsModel::initial()) && !g@.state.halted
                && g@.state.bus == GbaBusModel::initial(rom@) && g@.cycles == 0 && g.bus.wf(),
    {
        let mut gba = GameBoyAdvance { cpu: Cpu::new(), bus: Bus::new(rom), cycles: 0 };
        gba.cpu.init_post_boot();
        Ok(gba)
    }

    /// CPU cycles run since the machine started.
    pub fn total_cycles(&self) -> (c: u64)
        ensures
            c == self.cycles,
    {
        self.cycles
    }

    /// The screen size in pixels: 240 by 160.
    pub fn screen_dimensions() -> (d: (usize, usize))
        ensures
            d == (SCREEN_WIDTH, SCREEN_HEIGHT),
    {
        (SCREEN_WIDTH, SCREEN_HEIGHT)
    }

    /// The game title from the game pak header, or "GBA GAME".
    pub fn title(&self) -> (t: &str)
        ensures
            t@ == gba_title(self.bus@.rom),
    {
        let len = self.bus.rom.len();
        if len > 0xA0 {
            let end: usize = if len < 0xAC { len } else { 0xAC };
            let field = vstd::slice::slice_subrange(self.bus.rom.as_slice(), 0xA0, end);
            match core::str::from_utf8(field) {
                Ok(s) => {
                    return s.trim();
                },
                Err(_) => {},
            }
        }
        "GBA GAME"
    }

    /// The screen, 240 by 160 pixels of 24-bit RGB, row by row.
    pub fn framebuffer(&self) -> (f: &[u32])
        ensures
            f@ == self.bus@.ppu.framebuffer,
    {
        self.bus.ppu.framebuffer.as_slice()
    }

    /// Sets the pressed buttons (bits 0-7: A, B, Select, Start, Right, Left, Up, Down;
    /// 1 = pressed).
    pub fn set_button_state(&mut self, buttons: u8)
        ensures
            final(self)@ == (GbaModel { state: GbaState { bus: old(self)@.state.bus.with_buttons(buttons), ..old(self)@.state }, ..old(self)@ }),
            final(self).bus.wf() == old(self).bus.wf(),
    {
        self.bus.set_button_state(buttons);
    }

    /// Game paks here have no battery-backed save.
    pub fn has_battery(&self) -> (b: bool)
        ensures
            !b,
    {
        false
    }

    /// There is no save to write; never fails.
    pub fn save_game(&self) -> (r: Result<(), core::convert::Infallible>)
        ensures
            r is Ok,
    {
        Ok(())
    }

    /// Runs steps until a frame's worth of cycles (280,896) has run. Only a machine whose
    /// steps can all be taken until then is run.
    pub fn run_frame(&mut self) -> (r: Result<(), core::convert::Infallible>)
        requires
            old(self).bus.wf(),
            exists|n: nat| #[trigger] old(self)@.frame_run(0, n) is Some,
        ensures
            r is Ok,
            final(self).bus.wf(),
            final(self)@ == old(self)@.frame_run(0, choose|n: nat| #[trigger] old(self)@.frame_run(0, n) is Some).unwrap(),
    {
        let ghost n = choose|n: nat| #[trigger] self@.frame_run(0, n) is Some;
        let ghost target = self@.frame_run(0, n);
        let ghost mut fuel: nat = n;
        let mut frame_cycles: u32 = 0;
        while frame_cycles < FRAME_CYCLES
            invariant
                self.bus.wf(),
                target is Some,
                self@.frame_run(frame_cycles, fuel) == target,
                target == old(self)@.frame_run(0, n),
                n == choose|n: nat| #[trigger] old(self)@.frame_run(0, n) is Some,
            decreases fuel,
        {
            let step = match self.step() {
                Ok(s) => s,
                Err(e) => {
                    return Err(e);
                },
            };
            frame_cycles = frame_cycles + step.cycles;
            proof {
                fuel = (fuel - 1) as nat;
            }
        }
        Ok(())
    }
}

impl HeadlessCore for GameBoyAdvance {
    type Error = core::convert::Infallible;

    open spec fn inv(&self) -> bool {
        self.bus.wf()
    }

    open spec fn can_step(&self) -> bool {
        self@.step() is Some
    }

    open spec fn step_rel(&self, after: &Self, r: Result<StepResult, core::convert::Infallible>) -> bool {
        r matches Ok(sr) && (after@, sr) == self@.step().unwrap()
    }

    /// Runs one CPU step, then the timers, PPU and DMA for its cycles; never fails.
    fn step(&mut self) -> (r: Result<StepResult, core::convert::Infallible>)
        ensures
            r matches Ok(sr) && (final(self)@, sr) == old(self)@.step().unwrap(),
    {
        let cpu_cycles = self.cpu.step(&mut self.bus);
        self.bus.tick(cpu_cycles);
        self.cycles = self.cycles.wrapping_add(cpu_cycles as u64);
        Ok(StepResult::new(cpu_cycles, self.cpu.halted))
    }
}

} // verus!
