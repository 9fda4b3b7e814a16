//! The ARM7TDMI processor: condition codes, the barrel shifter, interrupts and the
//! post-boot state.
use vstd::prelude::*;
use crate::gba::regs::{CpuMode, Registers, RegsModel, StatusRegister};
use crate::gba::bus::{Bus, GbaBusModel};
use crate::gba::arm::arm_execute;
use crate::gba::thumb::thumb_execute;

verus! {

/// The barrel shifter's operations.
#[derive(Debug, Clone, Copy, PartialEq, Eq, Structural)]
pub enum ShiftType {
    /// Logical shift left.
    Lsl,
    /// Logical shift right.
    Lsr,
    /// Arithmetic shift right.
    Asr,
    /// Rotate right.
    Ror,
}

/// Whether condition code `cond` passes under the flags of `cpsr`.
pub open spec fn condition_holds(cpsr: StatusRegister, cond: u8) -> bool {
    if cond == 0x0 {
        cpsr.z
    } else if cond == 0x1 {
        !cpsr.z
    } else if cond == 0x2 {
        cpsr.c
    } else if cond == 0x3 {
        !cpsr.c
    } else if cond == 0x4 {
        cpsr.n
    } else if cond == 0x5 {
        !cpsr.n
    } else if cond == 0x6 {
        cpsr.v
    } else if cond == 0x7 {
        !cpsr.v
    } else if cond == 0x8 {
        cpsr.c && !cpsr.z
    } else if cond == 0x9 {
        !cpsr.c || cpsr.z
    } else if cond == 0xA {
        cpsr.n == cpsr.v
    } else if cond == 0xB {
        cpsr.n != cpsr.v
    } else if cond == 0xC {
        !cpsr.z && cpsr.n == cpsr.v
    } else if cond == 0xD {
        cpsr.z || cpsr.n != cpsr.v
    } else {
        true
    }
}

/// The barrel shifter: `value` shifted by `amount`, and the carry out. A zero amount
/// passes the value and the carry in through; shifts of 32 or more give 0 (or the sign,
/// for ASR), with the carry taken from bit 0 (LSL) or bit 31 (LSR) at exactly 32.
pub open spec fn shift_result(shift_type: ShiftType, amount: u32, value: u32, carry_in: bool) -> (u32, bool) {
    if amount == 0 {
        (value, carry_in)
    } else {
        match shift_type {
            ShiftType::Lsl => if amount >= 32 {
                (0, if amount == 32 { value & 1 != 0 } else { false })
            } else {
                (value << amount, value & (1u32 << (32 - amount) as u32) != 0)
            },
            ShiftType::Lsr => if amount >= 32 {
                (0, if amount == 32 { value >> 31u32 != 0 } else { false })
            } else {
                (value >> amount, value & (1u32 << (amount - 1) as u32) != 0)
            },
            ShiftType::Asr => if amount >= 32 {
                let sign = value & 0x8000_0000 != 0;
                (if sign { 0xFFFF_FFFFu32 } else { 0u32 }, sign)
            } else {
                (((value as i32) >> amount) as u32, value & (1u32 << (amount - 1) as u32) != 0)
            },
            ShiftType::Ror => {
                let rot = amount % 32;
                if rot == 0 {
                    (value, carry_in)
                } else {
                    ((value >> rot) | (value << (32 - rot) as u32), value & (1u32 << (rot - 1) as u32) != 0)
                }
            },
        }
    }
}

/// The ARM7TDMI: its registers and whether it waits for an interrupt.
#[derive(Debug)]
pub struct Cpu {
    /// The register file.
    pub registers: Registers,
    /// Halted until an interrupt is pending.
    pub halted: bool,
}

impl Default for Cpu {
    /// A CPU with the power-on register file, running.
    fn default() -> (c: Self)
        ensures
            c.registers@ == RegsModel::initial(),
            !c.halted,
    {
        Cpu { registers: Registers::default(), halted: false }
    }
}

/// The register file after boot: stack pointers for System, Supervisor and IRQ modes,
/// System mode, ARM state and the PC at the start of the game pak ROM.
pub open spec fn post_boot(regs: RegsModel) -> RegsModel {
    let r1 = regs.with_mode(CpuMode::System).set(13, 0x03007F00);
    let r2 = r1.with_mode(CpuMode::Supervisor).set(13, 0x03007FE0);
    let r3 = r2.with_mode(CpuMode::Irq).set(13, 0x03007FA0);
    let r4 = r3.with_mode(CpuMode::System);
    RegsModel { r15: 0x0800_0000, cpsr: StatusRegister { t: false, ..r4.cpsr }, ..r4 }
}

impl Cpu {
    /// A CPU with the power-on register file, running.
    pub fn new() -> (c: Self)
        ensures
            c.registers@ == RegsModel::initial(),
            !c.halted,
    {
        Cpu::default()
    }

    /// Sets up the state the BIOS leaves behind at boot.
    pub fn init_post_boot(&mut self)
        ensures
            final(self).registers@ == post_boot(old(self).registers@),
            final(self).halted == old(self).halted,
    {
        self.registers.switch_mode(CpuMode::System);
        self.registers.set(13, 0x03007F00);
        self.registers.switch_mode(CpuMode::Supervisor);
        self.registers.set(13, 0x03007FE0);
        self.registers.switch_mode(CpuMode::Irq);
        self.registers.set(13, 0x03007FA0);
        self.registers.switch_mode(CpuMode::System);
        self.registers.r15 = 0x0800_0000;
        self.registers.cpsr.t = false;
    }

    /// The PC as instructions read it: two instructions ahead (8 bytes in ARM state,
    /// 4 in Thumb).
    pub fn pc_lookahead(&self) -> (pc: u32)
        ensures
            pc == (if self.registers.cpsr.t {
                self.registers.r15.wrapping_add(4)
            } else {
                self.registers.r15.wrapping_add(8)
            }),
    {
        if self.registers.cpsr.t {
            self.registers.r15.wrapping_add(4)
        } else {
            self.registers.r15.wrapping_add(8)
        }
    }

    /// Whether condition code `cond` passes under the current flags.
    pub fn check_condition(&self, cond: u8) -> (b: bool)
        ensures
            b == condition_holds(self.registers.cpsr, cond),
    {
        let cpsr = self.registers.cpsr;
        if cond == 0x0 {
            cpsr.z
        } else if cond == 0x1 {
            !cpsr.z
        } else if cond == 0x2 {
            cpsr.c
        } else if cond == 0x3 {
            !cpsr.c
        } else if cond == 0x4 {
            cpsr.n
        } else if cond == 0x5 {
            !cpsr.n
        } else if cond == 0x6 {
            cpsr.v
        } else if cond == 0x7 {
            !cpsr.v
        } else if cond == 0x8 {
            cpsr.c && !cpsr.z
        } else if cond == 0x9 {
            !cpsr.c || cpsr.z
        } else if cond == 0xA {
            cpsr.n == cpsr.v
        } else if cond == 0xB {
            cpsr.n != cpsr.v
        } else if cond == 0xC {
            !cpsr.z && cpsr.n == cpsr.v
        } else if cond == 0xD {
            cpsr.z || cpsr.n != cpsr.v
        } else {
            true
        }
    }

    /// The barrel shifter: `value` shifted by `amount`, and the carry out.
    pub fn barrel_shift(&self, shift_type: ShiftType, amount: u32, value: u32, carry_in: bool) -> (r: (u32, bool))
        ensures
            r == shift_result(shift_type, amount, value, carry_in),
    {
        if amount == 0 {
            return (value, carry_in);
        }
        match shift_type {
            ShiftType::Lsl => {
                if amount >= 32 {
                    (0, if amount == 32 { value & 1 != 0 } else { false })
                } else {
                    (value << amount, (value & (1u32 << (32 - amount))) != 0)
                }
            },
            ShiftType::Lsr => {
                if amount >= 32 {
                    (0, if amount == 32 { (value >> 31u32) != 0 } else { false })
                } else {
                    (value >> amount, (value & (1u32 << (amount - 1))) != 0)
                }
            },
            ShiftType::Asr => {
                if amount >= 32 {
                    let sign = (value & 0x8000_0000) != 0;
                    (if sign { 0xFFFF_FFFFu32 } else { 0u32 }, sign)
                } else {
                    let shifted = ((value as i32) >> amount) as u32;
                    (shifted, (value & (1u32 << (amount - 1))) != 0)
                }
            },
            ShiftType::Ror => {
                let rot = amount % 32;
                if rot == 0 {
                    (value, carry_in)
                } else {
                    let shifted = (value >> rot) | (value << (32 - rot));
                    (shifted, (value & (1u32 << (rot - 1))) != 0)
                }
            },
        }
    }
}


/// The processor and the bus together: what an instruction reads and changes.
pub struct GbaState {
    pub regs: RegsModel,
    pub halted: bool,
    pub bus: GbaBusModel,
}

/// The state of a CPU and a bus.
pub open spec fn gba_state(cpu: &Cpu, bus: GbaBusModel) -> GbaState {
    GbaState { regs: cpu.registers@, halted: cpu.halted, bus }
}

/// `a + b` wrapped to 32 bits, and whether it carried out of bit 31.
pub open spec fn add_u32(a: u32, b: u32) -> (u32, bool) {
    (a.wrapping_add(b), a + b > u32::MAX)
}

/// `a - b` wrapped to 32 bits, and whether it borrowed.
pub open spec fn sub_u32(a: u32, b: u32) -> (u32, bool) {
    (a.wrapping_sub(b), a < b)
}

/// Whether `a + b` overflows as signed 32-bit values.
pub open spec fn add_overflows(a: u32, b: u32) -> bool {
    let s = (a as i32) + (b as i32);
    s > i32::MAX || s < i32::MIN
}

/// Whether `a - b` overflows as signed 32-bit values.
pub open spec fn sub_overflows(a: u32, b: u32) -> bool {
    let s = (a as i32) - (b as i32);
    s > i32::MAX || s < i32::MIN
}

/// `a + b` and its unsigned carry.
pub(crate) fn overflowing_add(a: u32, b: u32) -> (r: (u32, bool))
    ensures
        r == add_u32(a, b),
{
    (a.wrapping_add(b), a as u64 + b as u64 > 0xFFFF_FFFF)
}

/// `a - b` and its unsigned borrow.
pub(crate) fn overflowing_sub(a: u32, b: u32) -> (r: (u32, bool))
    ensures
        r == sub_u32(a, b),
{
    (a.wrapping_sub(b), a < b)
}

/// Whether `a + b` overflows as signed values.
pub(crate) fn signed_add_overflows(a: u32, b: u32) -> (o: bool)
    ensures
        o == add_overflows(a, b),
{
    let s = (a as i32) as i64 + (b as i32) as i64;
    s > 0x7FFF_FFFF || s < -0x8000_0000
}

/// Whether `a - b` overflows as signed values.
pub(crate) fn signed_sub_overflows(a: u32, b: u32) -> (o: bool)
    ensures
        o == sub_overflows(a, b),
{
    let s = (a as i32) as i64 - (b as i32) as i64;
    s > 0x7FFF_FFFF || s < -0x8000_0000
}

/// The status register with N and Z set from `result` and C and V from `c` and `v`.
pub open spec fn with_nzcv(cpsr: StatusRegister, result: u32, c: bool, v: bool) -> StatusRegister {
    StatusRegister { n: result & 0x8000_0000 != 0, z: result == 0, c, v, ..cpsr }
}


/// The state after checking interrupts: a pending enabled interrupt (IE & IF) wakes a
/// halted CPU, and when IRQs are unmasked and IME is set, the CPU enters IRQ mode in ARM
/// state with IRQs masked, saving the CPSR and the return address and jumping to 0x18.
#[verifier::opaque]
pub open spec fn check_interrupts_spec(s: GbaState) -> GbaState {
    let ime = s.bus.read_half(0x0400_0208) & 1;
    let ie = s.bus.read_half(0x0400_0200);
    let ip = s.bus.read_half(0x0400_0202);
    if ie & ip == 0 {
        s
    } else if !s.regs.cpsr.i && ime != 0 {
        let old_cpsr = s.regs.cpsr;
        let r1 = s.regs.with_mode(CpuMode::Irq).with_spsr(old_cpsr);
        let r2 = RegsModel { cpsr: StatusRegister { t: false, i: true, ..r1.cpsr }, ..r1 };
        let lr = if old_cpsr.t { s.regs.r15.wrapping_add(2) } else { s.regs.r15.wrapping_add(4) };
        let r3 = r2.set(14, lr);
        GbaState { regs: RegsModel { r15: 0x18, pc_written: true, ..r3 }, halted: false, ..s }
    } else {
        GbaState { halted: false, ..s }
    }
}

/// Words `vals[i..]` pushed from `sp` down: each goes 4 bytes below the one before.
/// Gives the bus and the final stack pointer, `None` where a write starts DMA that does
/// not end.
pub open spec fn push_words(bus: GbaBusModel, sp: u32, vals: Seq<u32>, i: int) -> Option<(GbaBusModel, u32)>
    decreases vals.len() - i,
{
    if i >= vals.len() || i < 0 {
        Some((bus, sp))
    } else {
        let addr = sp.wrapping_sub(4);
        if bus.word_write_ok(addr, vals[i]) {
            push_words(bus.after_word_write(addr, vals[i]), addr, vals, i + 1)
        } else {
            None
        }
    }
}

/// Entering a game's IRQ handler at the BIOS vector 0x18, when the handler address at
/// 0x03007FFC is set: in System mode, push the IRQ link register, LR, R12 and R3-R0,
/// return to 0x1C, and jump to the handler.
#[verifier::opaque]
pub open spec fn irq_entry_spec(s: GbaState) -> Option<GbaState> {
    let handler = s.bus.read_word(0x0300_7FFC);
    if handler == 0 {
        Some(s)
    } else {
        let lr_irq = s.regs.get(14);
        let r1 = s.regs.with_mode(CpuMode::System);
        let sp = r1.get(13);
        let vals = seq![lr_irq, r1.get(14), r1.get(12), r1.get(3), r1.get(2), r1.get(1), r1.get(0)];
        match push_words(s.bus, sp, vals, 0) {
            None => None,
            Some((b, sp2)) => {
                let r2 = r1.set(13, sp2).set(14, 0x1C);
                Some(GbaState { regs: RegsModel { r15: handler, pc_written: true, ..r2 }, bus: b, ..s })
            },
        }
    }
}

/// Returning from a game's IRQ handler at 0x1C: pop R0-R3, R12, LR and the IRQ link
/// register, go back to IRQ mode, restore the CPSR from its SPSR and resume at the link
/// register minus 4.
#[verifier::opaque]
pub open spec fn irq_exit_spec(s: GbaState) -> GbaState {
    let a0 = s.regs.get(13);
    let a1 = a0.wrapping_add(4);
    let a2 = a1.wrapping_add(4);
    let a3 = a2.wrapping_add(4);
    let a4 = a3.wrapping_add(4);
    let a5 = a4.wrapping_add(4);
    let a6 = a5.wrapping_add(4);
    let b = s.bus;
    let r1 = s.regs.set(13, a6.wrapping_add(4)).set(0, b.read_word(a0)).set(1, b.read_word(a1)).set(2, b.read_word(a2)).set(
        3,
        b.read_word(a3),
    ).set(12, b.read_word(a4)).set(14, b.read_word(a5));
    let r2 = r1.with_mode(CpuMode::Irq);
    GbaState {
        regs: RegsModel { cpsr: r2.spsr_of(), r15: b.read_word(a6).wrapping_sub(4), pc_written: true, ..r2 },
        ..s
    }
}

/// One CPU step: interrupts, then a halted CPU waits a cycle; otherwise the IRQ handler
/// entry and exit at 0x18 and 0x1C, then the instruction at the PC in the current state,
/// after which the PC advances by the instruction size unless the instruction wrote it.
/// Gives the state and the cycles, `None` where a write starts DMA that does not end.
pub open spec fn cpu_step(s: GbaState) -> Option<(GbaState, u32)> {
    let s1 = check_interrupts_spec(s);
    if s1.halted {
        Some((s1, 1))
    } else {
        let s2 = if s1.regs.r15 == 0x18 { irq_entry_spec(s1) } else { Some(s1) };
        match s2 {
            None => None,
            Some(s2) => {
                let s3 = if s2.regs.r15 == 0x1C { irq_exit_spec(s2) } else { s2 };
                let pc = s3.regs.r15;
                let s4 = GbaState { regs: RegsModel { pc_written: false, ..s3.regs }, ..s3 };
                let r = if s4.regs.cpsr.t {
                    thumb_execute(s4, s4.bus.read_half(pc))
                } else {
                    arm_execute(s4, s4.bus.read_word(pc))
                };
                match r {
                    None => None,
                    Some((s5, cycles)) => {
                        let s6 = if s5.regs.pc_written {
                            s5
                        } else {
                            GbaState {
                                regs: RegsModel { r15: pc.wrapping_add(if s5.regs.cpsr.t { 2u32 } else { 4u32 }), ..s5.regs },
                                ..s5
                            }
                        };
                        Some((s6, cycles))
                    },
                }
            },
        }
    }
}

impl Cpu {
    /// Checks for a pending enabled interrupt: wakes a halted CPU, and takes the IRQ when
    /// IRQs are unmasked and IME is set.
    pub fn check_interrupts(&mut self, bus: &Bus)
        requires
            bus.wf(),
        ensures
            gba_state(final(self), bus@) == check_interrupts_spec(gba_state(old(self), bus@)),
    {
        reveal(check_interrupts_spec);
        let ime = bus.read_halfword(0x0400_0208) & 1;
        let ie = bus.read_halfword(0x0400_0200);
        let ip = bus.read_halfword(0x0400_0202);
        let pending = ie & ip;
        if pending != 0 {
            if self.halted {
                self.halted = false;
            }
            if !self.registers.cpsr.i && ime != 0 {
                let old_cpsr = self.registers.cpsr;
                self.registers.switch_mode(CpuMode::Irq);
                self.registers.set_spsr(old_cpsr);
                let cpsr = self.registers.cpsr;
                self.registers.cpsr = StatusRegister { t: false, i: true, ..cpsr };
                let lr_val = if old_cpsr.t {
                    self.registers.r15.wrapping_add(2)
                } else {
                    self.registers.r15.wrapping_add(4)
                };
                self.registers.set(14, lr_val);
                self.registers.r15 = 0x18;
                self.registers.pc_written = true;
            }
        }
    }

    fn irq_entry(&mut self, bus: &mut Bus)
        requires
            old(bus).wf(),
            irq_entry_spec(gba_state(old(self), old(bus)@)) is Some,
        ensures
            final(bus).wf(),
            irq_entry_spec(gba_state(old(self), old(bus)@)) == Some(gba_state(final(self), final(bus)@)),
    {
        reveal(irq_entry_spec);
        let handler = bus.read_word(0x0300_7FFC);
        if handler != 0 {
            let lr_irq = self.registers.get(14);
            self.registers.switch_mode(CpuMode::System);
            let sp = self.registers.get(13);
            let vals: [u32; 7] = [
                lr_irq,
                self.registers.get(14),
                self.registers.get(12),
                self.registers.get(3),
                self.registers.get(2),
                self.registers.get(1),
                self.registers.get(0),
            ];
            let ghost target = push_words(bus@, sp, vals@, 0);
            let mut addr = sp;
            let mut i: usize = 0;
            while i < 7
                invariant
                    i <= 7,
                    bus.wf(),
                    target is Some,
                    push_words(bus@, addr, vals@, i as int) == target,
                decreases 7 - i,
            {
                addr = addr.wrapping_sub(4);
                bus.write_word(addr, vals[i]);
                i = i + 1;
            }
            self.registers.set(13, addr);
            self.registers.set(14, 0x1C);
            self.registers.r15 = handler;
            self.registers.pc_written = true;
        }
    }

    fn irq_exit(&mut self, bus: &Bus)
        requires
            bus.wf(),
        ensures
            gba_state(final(self), bus@) == irq_exit_spec(gba_state(old(self), bus@)),
    {
        reveal(irq_exit_spec);
        let mut sp = self.registers.get(13);
        let ghost sp0 = sp;
        let r0 = bus.read_word(sp);
        sp = sp.wrapping_add(4);
        let r1 = bus.read_word(sp);
        sp = sp.wrapping_add(4);
        let r2 = bus.read_word(sp);
        sp = sp.wrapping_add(4);
        let r3 = bus.read_word(sp);
        sp = sp.wrapping_add(4);
        let r12 = bus.read_word(sp);
        sp = sp.wrapping_add(4);
        let lr_sys = bus.read_word(sp);
        sp = sp.wrapping_add(4);
        let lr_irq = bus.read_word(sp);
        sp = sp.wrapping_add(4);
        self.registers.set(13, sp);
        self.registers.set(0, r0);
        self.registers.set(1, r1);
        self.registers.set(2, r2);
        self.registers.set(3, r3);
        self.registers.set(12, r12);
        self.registers.set(14, lr_sys);
        self.registers.switch_mode(CpuMode::Irq);
        let spsr = self.registers.get_spsr();
        self.registers.cpsr = spsr;
        self.registers.r15 = lr_irq.wrapping_sub(4);
        self.registers.pc_written = true;
    }

    /// Runs one step: interrupts, then a halted CPU waits a cycle; otherwise the BIOS IRQ
    /// handler entry and exit, then one instruction. Returns its cycles.
    #[verifier::rlimit(80)]
    pub fn step(&mut self, bus: &mut Bus) -> (cycles: u32)
        requires
            old(bus).wf(),
            cpu_step(gba_state(old(self), old(bus)@)) is Some,
        ensures
            final(bus).wf(),
            cpu_step(gba_state(old(self), old(bus)@)) == Some((gba_state(final(self), final(bus)@), cycles)),
    {
        self.check_interrupts(bus);
        if self.halted {
            return 1;
        }
        if self.registers.r15 == 0x18 {
            self.irq_entry(bus);
        }
        if self.registers.r15 == 0x1C {
            self.irq_exit(bus);
        }
        let pc = self.registers.r15;
        self.registers.pc_written = false;
        let cycles = if self.registers.cpsr.t {
            let instruction = bus.read_halfword(pc);
            self.execute_thumb(instruction, bus)
        } else {
            let instruction = bus.read_word(pc);
            self.execute_arm(instruction, bus)
        };
        if !self.registers.pc_written {
            let advance: u32 = if self.registers.cpsr.t { 2 } else { 4 };
            self.registers.r15 = pc.wrapping_add(advance);
        }
        cycles
    }
}

} // verus!
