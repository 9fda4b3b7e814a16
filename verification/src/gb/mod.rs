//! The Game Boy core: a CPU, a memory bus with its cartridge and sound unit, and a PPU,
//! stepped together one instruction at a time.
pub mod cartridge;
pub mod apu;
pub mod bus;
pub mod cpu;
pub mod ppu;
pub mod printer;

use vstd::prelude::*;
use vstd::utf8::{valid_utf8, decode_utf8};
use vstd::string::StringExecFns;
use crate::common::{HeadlessCore, RunStats, StepResult};
use crate::gb::bus::{Bus, BusModel};
use crate::gb::cartridge::{
    Cartridge, CartridgeError, CartridgeModel, SaveFile, raw_title, title_text, initial_cartridge, kind_for_type, CARTRIDGE_TYPE_ADDRESS,
    MIN_ROM_SIZE,
};
use crate::gb::cpu::{Cpu, CpuError, Registers, flags_clean, lemma_step_flags_clean, state};
use crate::gb::ppu::{Ppu, PpuModel, SCREEN_HEIGHT, SCREEN_WIDTH};

verus! {

/// Errors from any part of the Game Boy core.
#[derive(Debug)]
pub enum GameBoyError {
    /// Loading or saving the cartridge failed.
    Cartridge(CartridgeError),
    /// The CPU met an instruction it cannot execute.
    Cpu(CpuError),
}

impl GameBoyError {
    /// The text shown for the error: which part failed, then its own text.
    pub open spec fn text(self) -> Seq<char> {
        match self {
            GameBoyError::Cartridge(e) => "cartridge error: "@ + e.text(),
            GameBoyError::Cpu(e) => "cpu error: "@ + e.text(),
        }
    }

    /// The text shown for the error: which part failed, then its own text.
    pub fn message(&self) -> (s: String)
        ensures
            s@ == self.text(),
    {
        match self {
            GameBoyError::Cartridge(e) => {
                let mut s = String::from_str("cartridge error: ");
                s.append(e.message().as_str());
                s
            },
            GameBoyError::Cpu(e) => {
                let mut s = String::from_str("cpu error: ");
                s.append(e.message().as_str());
                s
            },
        }
    }
}

impl From<CartridgeError> for GameBoyError {
    fn from(value: CartridgeError) -> (e: Self) {
        GameBoyError::Cartridge(value)
    }
}

impl vstd::std_specs::convert::FromSpecImpl<CartridgeError> for GameBoyError {
    open spec fn obeys_from_spec() -> bool {
        true
    }

    open spec fn from_spec(v: CartridgeError) -> GameBoyError {
        GameBoyError::Cartridge(v)
    }
}

impl From<CpuError> for GameBoyError {
    fn from(value: CpuError) -> (e: Self) {
        GameBoyError::Cpu(value)
    }
}

impl vstd::std_specs::convert::FromSpecImpl<CpuError> for GameBoyError {
    open spec fn obeys_from_spec() -> bool {
        true
    }

    open spec fn from_spec(v: CpuError) -> GameBoyError {
        GameBoyError::Cpu(v)
    }
}

/// The whole machine as a value.
pub struct GameBoyModel {
    pub cpu: Cpu,
    pub bus: BusModel,
    pub ppu: PpuModel,
    pub cycles: u64,
}

impl GameBoyModel {
    pub open spec fn wf(self) -> bool {
        self.bus.wf() && self.ppu.wf()
    }

    /// One CPU instruction: the machine after it and what it returned. The cycle total
    /// grows by the instruction's cycles, wrapping at 2^64.
    #[verifier::opaque]
    pub open spec fn step(self) -> (GameBoyModel, Result<StepResult, GameBoyError>) {
        let (s, r) = state(self.cpu, self.bus).step();
        match r {
            Ok(sr) => (
                GameBoyModel { cpu: s.cpu, bus: s.bus, cycles: self.cycles.wrapping_add(sr.cycles as u64), ..self },
                Ok(sr),
            ),
            Err(e) => (GameBoyModel { cpu: s.cpu, bus: s.bus, ..self }, Err(GameBoyError::Cpu(e))),
        }
    }

    /// Running at most `steps` instructions, stopping after one that halts or fails.
    pub open spec fn run(self, steps: nat, stats: RunStats) -> (GameBoyModel, Result<RunStats, GameBoyError>)
        decreases steps,
    {
        if steps == 0 {
            (self, Ok(stats))
        } else {
            let (m1, r) = self.step();
            match r {
                Err(e) => (m1, Err(e)),
                Ok(sr) => {
                    let st = stats.spec_record(sr);
                    if sr.halted {
                        (m1, Ok(st))
                    } else {
                        m1.run((steps - 1) as nat, st)
                    }
                },
            }
        }
    }

    /// One instruction followed by the PPU running for its cycles, and whether a frame
    /// completed; `None` when the instruction failed.
    pub open spec fn frame_step(self) -> (GameBoyModel, Result<bool, GameBoyError>) {
        let (m1, r) = self.step();
        match r {
            Err(e) => (m1, Err(e)),
            Ok(sr) => {
                let (p, b, frame) = m1.ppu.step(sr.cycles, m1.bus);
                (GameBoyModel { ppu: p, bus: b, ..m1 }, Ok(frame))
            },
        }
    }

    /// Where running until a frame completes ends, if it ends within `n` instructions:
    /// the machine then, and `Ok` or the CPU's error.
    pub open spec fn frame_within(self, n: nat) -> Option<(GameBoyModel, Result<(), GameBoyError>)>
        decreases n,
    {
        if n == 0 {
            None
        } else {
            let (m1, r) = self.frame_step();
            match r {
                Err(e) => Some((m1, Err(e))),
                Ok(true) => Some((m1, Ok(()))),
                Ok(false) => m1.frame_within((n - 1) as nat),
            }
        }
    }
}

/// Where `n` instructions that each leave the frame unfinished lead; stops early at the
/// instruction that fails or completes a frame.
pub open spec fn frame_run(m: GameBoyModel, n: nat) -> GameBoyModel
    decreases n,
{
    if n == 0 {
        m
    } else {
        let (m1, r) = m.frame_step();
        match r {
            Ok(false) => frame_run(m1, (n - 1) as nat),
            _ => m1,
        }
    }
}

/// What running for a frame with a budget of `n` instructions gives from `m`: the end
/// of the frame when it comes within the budget, otherwise no result and the machine
/// after the budget is spent.
pub open spec fn frame_budget_outcome(
    m: GameBoyModel,
    n: nat,
    after: GameBoyModel,
    r: Option<Result<(), GameBoyError>>,
) -> bool {
    match m.frame_within(n) {
        Some((m1, res)) => r == Some(res) && after == m1,
        None => r is None && after == frame_run(m, n),
    }
}

/// A number taken modulo 2^64, as a 64-bit word.
pub open spec fn wrap64(x: int) -> u64 {
    (x % 0x1_0000_0000_0000_0000) as u64
}

/// Adding with wraparound is adding modulo 2^64.
proof fn lemma_wrapping_add_is_mod(a: u64, b: u64)
    ensures
        a.wrapping_add(b) == wrap64(a + b),
{
    let m: int = 0x1_0000_0000_0000_0000;
    if a + b > u64::MAX {
        vstd::arithmetic::div_mod::lemma_fundamental_div_mod_converse(a + b, m, 1, a + b - m);
    } else {
        vstd::arithmetic::div_mod::lemma_fundamental_div_mod_converse(a + b, m, 0, a + b);
    }
}

/// Reducing the parts of a sum modulo 2^64 first changes nothing modulo 2^64.
proof fn lemma_wrap_sum(a: int, b: int, c: int)
    ensures
        wrap64(wrap64(a) + b - wrap64(c)) == wrap64(a + b - c),
{
    let m: int = 0x1_0000_0000_0000_0000;
    vstd::arithmetic::div_mod::lemma_fundamental_div_mod(a, m);
    vstd::arithmetic::div_mod::lemma_fundamental_div_mod(c, m);
    let qa = a / m;
    let qc = c / m;
    assert(wrap64(a) + b - wrap64(c) == m * (qc - qa) + (a + b - c)) by (nonlinear_arith)
        requires
            a == m * qa + a % m,
            c == m * qc + c % m,
            wrap64(a) == a % m,
            wrap64(c) == c % m,
    ;
    vstd::arithmetic::div_mod::lemma_mod_multiples_vanish(qc - qa, a + b - c, m);
}

/// A 64-bit word is its own value modulo 2^64.
proof fn lemma_wrap_small(x: u64)
    ensures
        wrap64(x as int) == x,
{
    vstd::arithmetic::div_mod::lemma_fundamental_div_mod_converse(x as int, 0x1_0000_0000_0000_0000, 0, x as int);
}

/// A step that succeeds adds its cycles to the counter, wrapping at 2^64.
proof fn lemma_step_cycles(m: GameBoyModel)
    ensures
        m.step().1 matches Ok(sr) ==> m.step().0.cycles == m.cycles.wrapping_add(sr.cycles as u64),
{
    reveal(GameBoyModel::step);
}

/// Running steps adds the cycles of the steps run to the machine's cycle total, both
/// modulo 2^64, starting from totals `stats`.
proof fn lemma_run_adds_cycles(m: GameBoyModel, n: nat, stats: RunStats)
    ensures
        m.run(n, stats) matches (m2, Ok(s)) ==> m2.cycles == wrap64(m.cycles + s.cycles - stats.cycles),
    decreases n,
{
    if n == 0 {
        lemma_wrap_small(m.cycles);
    } else {
        let (m1, r) = m.step();
        lemma_step_cycles(m);
        if let Ok(sr) = r {
            let st = stats.spec_record(sr);
            lemma_wrapping_add_is_mod(m.cycles, sr.cycles as u64);
            lemma_wrapping_add_is_mod(stats.cycles, sr.cycles as u64);
            lemma_wrap_small(stats.cycles);
            lemma_wrap_sum(stats.cycles + sr.cycles, m.cycles as int, stats.cycles as int);
            if !sr.halted {
                lemma_run_adds_cycles(m1, (n - 1) as nat, st);
                let (m2, r2) = m1.run((n - 1) as nat, st);
                if let Ok(s2) = r2 {
                    lemma_wrap_sum(m.cycles + sr.cycles, s2.cycles as int, stats.cycles + sr.cycles);
                }
            }
        }
    }
}

/// The cycle counter counts exactly the cycles of the steps run: a machine that runs at
/// most `n` instructions and succeeds with totals `s` has its counter grown by
/// `s.cycles`, both wrapping at 2^64.
pub proof fn lemma_run_total_cycles(m: GameBoyModel, n: nat)
    ensures
        m.run(n, RunStats::spec_empty()) matches (m2, Ok(s)) ==> m2.cycles == m.cycles.wrapping_add(s.cycles),
{
    lemma_run_adds_cycles(m, n, RunStats::spec_empty());
    if let (m2, Ok(s)) = m.run(n, RunStats::spec_empty()) {
        lemma_wrapping_add_is_mod(m.cycles, s.cycles);
    }
}

/// The low nibble of F, which holds no flag, stays clear as the machine steps.
pub proof fn lemma_machine_flags_clean(m: GameBoyModel)
    requires
        flags_clean(m.cpu.registers),
    ensures
        flags_clean(m.step().0.cpu.registers),
{
    reveal(GameBoyModel::step);
    lemma_step_flags_clean(state(m.cpu, m.bus));
}

/// Once a frame run ends within `n` instructions, it ends the same way within any more.
pub proof fn lemma_frame_within_mono(m: GameBoyModel, n: nat, k: nat)
    requires
        m.frame_within(n) is Some,
        n <= k,
    ensures
        m.frame_within(k) == m.frame_within(n),
    decreases n,
{
    let (m1, r) = m.frame_step();
    match r {
        Ok(false) => {
            lemma_frame_within_mono(m1, (n - 1) as nat, (k - 1) as nat);
        },
        _ => {},
    }
}

/// A Game Boy: CPU, bus and PPU, stepped together.
#[derive(Debug)]
pub struct GameBoy {
    /// The processor.
    pub cpu: Cpu,
    /// The memory bus, with the cartridge and the sound unit.
    pub bus: Bus,
    /// The picture processing unit.
    pub ppu: Ppu,
    /// CPU cycles run since the machine booted.
    pub cycles: u64,
}

impl View for GameBoy {
    type V = GameBoyModel;

    open spec fn view(&self) -> GameBoyModel {
        GameBoyModel { cpu: self.cpu, bus: self.bus@, ppu: self.ppu@, cycles: self.cycles }
    }
}

impl GameBoy {
    pub open spec fn wf(&self) -> bool {
        self@.wf()
    }

    /// Loads a ROM into a freshly booted machine: the CPU at 0x0100, the bus in its
    /// post-boot state, a white screen and no cycles run. Fails as `Cartridge::from_rom`
    /// does.
    pub fn from_rom_bytes(rom: Vec<u8>) -> (r: Result<Self, GameBoyError>)
        ensures
            boot_outcome(rom@, r),
            r is Ok && valid_utf8(raw_title(rom@)) ==> r->Ok_0@.bus.cart.title == title_text(decode_utf8(raw_title(rom@))),
    {
        let cartridge = match Cartridge::from_rom(rom) {
            Ok(c) => c,
            Err(e) => {
                return Err(GameBoyError::Cartridge(e));
            },
        };
        Ok(GameBoy { cpu: Cpu::new(), bus: Bus::new(cartridge), ppu: Ppu::new(), cycles: 0 })
    }

    /// The game title from the cartridge header.
    pub fn title(&self) -> (t: &str)
        ensures
            t@ == self@.bus.cart.title,
    {
        self.bus.cartridge().title()
    }

    /// The program counter.
    pub fn pc(&self) -> (pc: u16)
        ensures
            pc == self@.cpu.registers.pc,
    {
        self.cpu.pc()
    }

    /// A copy of the CPU registers.
    pub fn registers(&self) -> (r: Registers)
        ensures
            r == self@.cpu.registers,
    {
        self.cpu.registers()
    }

    /// CPU cycles run since boot.
    pub fn total_cycles(&self) -> (c: u64)
        ensures
            c == self@.cycles,
    {
        self.cycles
    }

    /// The screen size in pixels: 160 by 144.
    pub fn screen_dimensions() -> (d: (usize, usize))
        ensures
            d == (SCREEN_WIDTH, SCREEN_HEIGHT),
    {
        (SCREEN_WIDTH, SCREEN_HEIGHT)
    }

    /// The framebuffer: one shade (0-3) per pixel, row by row.
    pub fn framebuffer(&self) -> (f: &[u8])
        ensures
            f@ == self@.ppu.framebuffer,
            self.wf() ==> f@.len() == SCREEN_WIDTH * SCREEN_HEIGHT,
            self.wf() ==> forall|i: int| 0 <= i < f@.len() ==> #[trigger] f@[i] <= 3,
    {
        self.ppu.framebuffer()
    }

    /// Runs at most `steps` instructions, stopping after one that halts the CPU; the PPU
    /// does not run. Fails with the first CPU error.
    pub fn run_steps(&mut self, steps: usize) -> (r: Result<RunStats, GameBoyError>)
        requires
            old(self).wf(),
        ensures
            final(self).wf(),
            (final(self)@, r) == old(self)@.run(steps as nat, RunStats::spec_empty()),
    {
        let ghost target = self@.run(steps as nat, RunStats::spec_empty());
        let mut stats = RunStats::empty();
        let mut i: usize = 0;
        while i < steps
            invariant
                i <= steps,
                self.wf(),
                stats.instructions == i,
                self@.run((steps - i) as nat, stats) == target,
                target == old(self)@.run(steps as nat, RunStats::spec_empty()),
            decreases steps - i,
        {
            let step = match self.step() {
                Ok(s) => s,
                Err(e) => {
                    return Err(e);
                },
            };
            stats = stats.record(step);
            i = i + 1;
            if step.halted {
                return Ok(stats);
            }
        }
        Ok(stats)
    }

    /// Runs instructions, with the PPU following each one, until a frame completes.
    /// Fails with the first CPU error. Only a machine that completes a frame or fails
    /// within some number of instructions is run.
    pub fn run_frame(&mut self) -> (r: Result<(), GameBoyError>)
        requires
            old(self).wf(),
            exists|n: nat| #[trigger] old(self)@.frame_within(n) is Some,
        ensures
            final(self).wf(),
            forall|n: nat| #[trigger] old(self)@.frame_within(n) is Some ==> old(self)@.frame_within(n) == Some((final(self)@, r)),
    {
        let ghost start = self@;
        let ghost n = choose|n: nat| start.frame_within(n) is Some;
        let ghost mut fuel: nat = n;
        loop
            invariant
                self.wf(),
                self@.frame_within(fuel) is Some,
                self@.frame_within(fuel) == start.frame_within(n),
                start == old(self)@,
                start.frame_within(n) is Some,
            decreases fuel,
        {
            let step_result = match self.step() {
                Ok(s) => s,
                Err(e) => {
                    proof { lemma_frame_once(start, n); }
                    return Err(e);
                },
            };
            let frame = self.ppu.step(step_result.cycles, &mut self.bus);
            if frame {
                proof { lemma_frame_once(start, n); }
                return Ok(());
            }
            proof {
                fuel = (fuel - 1) as nat;
            }
        }
    }

    /// Runs as `run_frame` does for at most `max_steps` instructions: the result of the
    /// frame when it ends within them, or `None` after that many instructions.
    pub fn run_frame_within(&mut self, max_steps: u64) -> (r: Option<Result<(), GameBoyError>>)
        requires
            old(self).wf(),
        ensures
            final(self).wf(),
            frame_budget_outcome(old(self)@, max_steps as nat, final(self)@, r),
    {
        let ghost start = self@;
        let mut done: u64 = 0;
        while done < max_steps
            invariant
                self.wf(),
                start == old(self)@,
                done <= max_steps,
                start.frame_within(max_steps as nat) == self@.frame_within((max_steps - done) as nat),
                frame_run(start, max_steps as nat) == frame_run(self@, (max_steps - done) as nat),
            decreases max_steps - done,
        {
            let step_result = match self.step() {
                Ok(s) => s,
                Err(e) => {
                    return Some(Err(e));
                },
            };
            let frame = self.ppu.step(step_result.cycles, &mut self.bus);
            if frame {
                return Some(Ok(()));
            }
            done = done + 1;
        }
        None
    }

    /// Sets the pressed buttons: bits 0-3 are A, B, Select, Start; bits 4-7 are Right,
    /// Left, Up, Down (1 = pressed).
    pub fn set_button_state(&mut self, buttons: u8)
        ensures
            final(self)@ == (GameBoyModel { bus: BusModel { button_state: buttons, ..old(self)@.bus }, ..old(self)@ }),
    {
        self.bus.set_button_state(buttons);
    }

    /// Where the cartridge's battery-backed RAM is saved and restored from, or nothing when
    /// it has none.
    pub fn save_path(&self) -> (p: Option<String>)
        ensures
            p is Some <==> (self@.bus.cart.has_battery && self@.bus.cart.ram.len() > 0),
            p matches Some(path) ==> path@ == self@.bus.cart.title + ".sav"@,
    {
        self.bus.cartridge().save_path()
    }

    /// Restores the cartridge's battery-backed RAM from a save file's contents of exactly
    /// its size; anything else is ignored.
    pub fn load_save_file(&mut self, data: &Vec<u8>) -> (loaded: bool)
        ensures
            loaded == (old(self)@.bus.cart.has_battery && old(self)@.bus.cart.ram.len() > 0 && data@.len()
                == old(self)@.bus.cart.ram.len()),
            final(self)@ == (GameBoyModel {
                bus: BusModel {
                    cart: if loaded { CartridgeModel { ram: data@, ..old(self)@.bus.cart } } else { old(self)@.bus.cart },
                    ..old(self)@.bus
                },
                ..old(self)@
            }),
            final(self).wf() == old(self).wf(),
    {
        self.bus.cartridge_mut().load_save_file(data)
    }

    /// The save file for the cartridge's battery-backed RAM, or nothing when it has none.
    pub fn save_game(&self) -> (f: Option<SaveFile>)
        ensures
            f is Some <==> (self@.bus.cart.has_battery && self@.bus.cart.ram.len() > 0),
            f matches Some(s) ==> s.path@ == self@.bus.cart.title + ".sav"@ && s.data@ == self@.bus.cart.ram,
    {
        self.bus.cartridge().save_game()
    }

    /// Whether the cartridge keeps its RAM with a battery.
    pub fn has_battery(&self) -> (b: bool)
        ensures
            b == self@.bus.cart.has_battery,
    {
        self.bus.cartridge().has_battery()
    }

    /// Whether interrupts are enabled (IME).
    pub fn ime_enabled(&self) -> (b: bool)
        ensures
            b == self@.cpu.ime,
    {
        self.cpu.ime_enabled()
    }
}

/// A frame run that ends within `n` instructions ends the same way within any number
/// of instructions after which it ends.
proof fn lemma_frame_once(m: GameBoyModel, n: nat)
    requires
        m.frame_within(n) is Some,
    ensures
        forall|k: nat| #[trigger] m.frame_within(k) is Some ==> m.frame_within(k) == m.frame_within(n),
{
    assert forall|k: nat| #[trigger] m.frame_within(k) is Some implies m.frame_within(k) == m.frame_within(n) by {
        if k <= n {
            lemma_frame_within_mono(m, k, n);
        } else {
            lemma_frame_within_mono(m, n, k);
        }
    }
}

impl HeadlessCore for GameBoy {
    type Error = GameBoyError;

    open spec fn inv(&self) -> bool {
        self.wf()
    }

    open spec fn step_rel(&self, after: &Self, r: Result<StepResult, GameBoyError>) -> bool {
        (after@, r) == self@.step()
    }

    /// Runs one CPU instruction and adds its cycles to the total.
    fn step(&mut self) -> (r: Result<StepResult, GameBoyError>)
        ensures
            (final(self)@, r) == old(self)@.step(),
    {
        proof { reveal(GameBoyModel::step); }
        let step_result = match self.cpu.step(&mut self.bus) {
            Ok(s) => s,
            Err(e) => {
                return Err(GameBoyError::Cpu(e));
            },
        };
        self.cycles = self.cycles.wrapping_add(step_result.cycles as u64);
        Ok(step_result)
    }
}

/// What `GameBoy::from_rom_bytes` returns for a ROM.
pub open spec fn boot_outcome(rom: Seq<u8>, r: Result<GameBoy, GameBoyError>) -> bool {
    if rom.len() < MIN_ROM_SIZE {
        r == Err::<GameBoy, GameBoyError>(GameBoyError::Cartridge(
            CartridgeError::RomTooSmall { found: rom.len() as usize, minimum: MIN_ROM_SIZE },
        ))
    } else {
        match kind_for_type(rom[CARTRIDGE_TYPE_ADDRESS as int]) {
            None => r == Err::<GameBoy, GameBoyError>(GameBoyError::Cartridge(
                CartridgeError::UnsupportedCartridgeType(rom[CARTRIDGE_TYPE_ADDRESS as int]),
            )),
            Some((kind, battery)) => r matches Ok(gb) && gb.wf() && gb@ == (GameBoyModel {
                cpu: Cpu::spec_new(),
                bus: BusModel::initial(initial_cartridge(rom, kind, battery)),
                ppu: Ppu::spec_new(),
                cycles: 0,
            }),
        }
    }
}

} // verus!
