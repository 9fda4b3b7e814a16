//! The ARM7TDMI register file: the processor modes, the status register with its
//! packed 32-bit form, and the banked registers of each mode.
use vstd::prelude::*;

verus! {

/// The processor modes.
#[derive(Debug, Clone, Copy, PartialEq, Eq, Structural)]
pub enum CpuMode {
    User,
    Fiq,
    Irq,
    Supervisor,
    Abort,
    Undefined,
    System,
}

/// The 5-bit code of a mode in the status register.
pub open spec fn mode_bits(mode: CpuMode) -> u32 {
    match mode {
        CpuMode::User => 0x10,
        CpuMode::Fiq => 0x11,
        CpuMode::Irq => 0x12,
        CpuMode::Supervisor => 0x13,
        CpuMode::Abort => 0x17,
        CpuMode::Undefined => 0x1B,
        CpuMode::System => 0x1F,
    }
}

/// The mode that 5 status bits select; codes that name no mode select System.
pub open spec fn mode_of_bits(bits: u32) -> CpuMode {
    if bits == 0x10 {
        CpuMode::User
    } else if bits == 0x11 {
        CpuMode::Fiq
    } else if bits == 0x12 {
        CpuMode::Irq
    } else if bits == 0x13 {
        CpuMode::Supervisor
    } else if bits == 0x17 {
        CpuMode::Abort
    } else if bits == 0x1B {
        CpuMode::Undefined
    } else {
        CpuMode::System
    }
}

/// Which bank of R13, R14 and SPSR a mode uses: User and System share bank 0.
pub open spec fn bank_of(mode: CpuMode) -> int {
    match mode {
        CpuMode::User | CpuMode::System => 0,
        CpuMode::Fiq => 1,
        CpuMode::Irq => 2,
        CpuMode::Supervisor => 3,
        CpuMode::Abort => 4,
        CpuMode::Undefined => 5,
    }
}

impl Default for CpuMode {
    /// System mode.
    fn default() -> (m: Self)
        ensures
            m == CpuMode::System,
    {
        CpuMode::System
    }
}

impl CpuMode {
    /// The mode's 5-bit code.
    pub fn bits(self) -> (b: u32)
        ensures
            b == mode_bits(self),
    {
        match self {
            CpuMode::User => 0x10,
            CpuMode::Fiq => 0x11,
            CpuMode::Irq => 0x12,
            CpuMode::Supervisor => 0x13,
            CpuMode::Abort => 0x17,
            CpuMode::Undefined => 0x1B,
            CpuMode::System => 0x1F,
        }
    }
}

fn banked_index(mode: CpuMode) -> (i: usize)
    ensures
        i == bank_of(mode),
{
    match mode {
        CpuMode::User | CpuMode::System => 0,
        CpuMode::Fiq => 1,
        CpuMode::Irq => 2,
        CpuMode::Supervisor => 3,
        CpuMode::Abort => 4,
        CpuMode::Undefined => 5,
    }
}

/// A program status register (CPSR or SPSR).
#[derive(Debug, Clone, Copy, PartialEq, Eq, Structural)]
pub struct StatusRegister {
    /// Negative (bit 31).
    pub n: bool,
    /// Zero (bit 30).
    pub z: bool,
    /// Carry (bit 29).
    pub c: bool,
    /// Overflow (bit 28).
    pub v: bool,
    /// IRQ disable (bit 7).
    pub i: bool,
    /// FIQ disable (bit 6).
    pub f: bool,
    /// Thumb state (bit 5).
    pub t: bool,
    /// Processor mode (bits 0-4).
    pub mode: CpuMode,
}

/// Bit `k` of `val` as a flag.
pub open spec fn bit_set(val: u32, k: u32) -> bool {
    val & (1u32 << k) != 0
}

/// The packed form of a status register.
pub open spec fn pack_status(s: StatusRegister) -> u32 {
    (if s.n { 0x8000_0000u32 } else { 0u32 }) | (if s.z { 0x4000_0000u32 } else { 0u32 }) | (if s.c {
        0x2000_0000u32
    } else {
        0u32
    }) | (if s.v { 0x1000_0000u32 } else { 0u32 }) | (if s.i { 0x80u32 } else { 0u32 }) | (if s.f {
        0x40u32
    } else {
        0u32
    }) | (if s.t { 0x20u32 } else { 0u32 }) | mode_bits(s.mode)
}

/// The status register that a packed value holds.
pub open spec fn unpack_status(val: u32) -> StatusRegister {
    StatusRegister {
        n: bit_set(val, 31),
        z: bit_set(val, 30),
        c: bit_set(val, 29),
        v: bit_set(val, 28),
        i: bit_set(val, 7),
        f: bit_set(val, 6),
        t: bit_set(val, 5),
        mode: mode_of_bits(val & 0x1F),
    }
}

impl StatusRegister {
    pub open spec fn spec_new() -> StatusRegister {
        StatusRegister { n: false, z: false, c: false, v: false, i: true, f: true, t: false, mode: CpuMode::System }
    }

    pub open spec fn spec_default() -> StatusRegister {
        StatusRegister { n: false, z: false, c: false, v: false, i: false, f: false, t: false, mode: CpuMode::System }
    }

    /// The power-on status: System mode, ARM state, IRQ and FIQ disabled, flags clear.
    pub fn new() -> (s: Self)
        ensures
            s == StatusRegister::spec_new(),
    {
        StatusRegister { n: false, z: false, c: false, v: false, i: true, f: true, t: false, mode: CpuMode::System }
    }

    /// Packs the flags, the state and the mode into a 32-bit value.
    pub fn to_u32(self) -> (val: u32)
        ensures
            val == pack_status(self),
    {
        let n: u32 = if self.n { 0x8000_0000 } else { 0 };
        let z: u32 = if self.z { 0x4000_0000 } else { 0 };
        let c: u32 = if self.c { 0x2000_0000 } else { 0 };
        let v: u32 = if self.v { 0x1000_0000 } else { 0 };
        let i: u32 = if self.i { 0x80 } else { 0 };
        let f: u32 = if self.f { 0x40 } else { 0 };
        let t: u32 = if self.t { 0x20 } else { 0 };
        let val = n | z | c | v | i | f | t | (self.mode.bits() & 0x1F);
        proof { lemma_pack_status(self, val); }
        val
    }

    /// Unpacks a 32-bit value into the flags, the state and the mode.
    pub fn from_u32(&mut self, val: u32)
        ensures
            *final(self) == unpack_status(val),
    {
        self.n = (val & (1u32 << 31u32)) != 0;
        self.z = (val & (1u32 << 30u32)) != 0;
        self.c = (val & (1u32 << 29u32)) != 0;
        self.v = (val & (1u32 << 28u32)) != 0;
        self.i = (val & (1u32 << 7u32)) != 0;
        self.f = (val & (1u32 << 6u32)) != 0;
        self.t = (val & (1u32 << 5u32)) != 0;
        let m = val & 0x1F;
        self.mode = if m == 0x10 {
            CpuMode::User
        } else if m == 0x11 {
            CpuMode::Fiq
        } else if m == 0x12 {
            CpuMode::Irq
        } else if m == 0x13 {
            CpuMode::Supervisor
        } else if m == 0x17 {
            CpuMode::Abort
        } else if m == 0x1B {
            CpuMode::Undefined
        } else {
            CpuMode::System
        };
    }
}

impl Default for StatusRegister {
    /// All flags clear, ARM state, System mode.
    fn default() -> (s: Self)
        ensures
            s == StatusRegister::spec_default(),
    {
        StatusRegister { n: false, z: false, c: false, v: false, i: false, f: false, t: false, mode: CpuMode::System }
    }
}

/// The masks that `to_u32` sets are disjoint bits, and the mode code fits in 5 bits.
proof fn lemma_pack_status(s: StatusRegister, val: u32)
    requires
        val == (if s.n { 0x8000_0000u32 } else { 0u32 }) | (if s.z { 0x4000_0000u32 } else { 0u32 }) | (if s.c {
            0x2000_0000u32
        } else {
            0u32
        }) | (if s.v { 0x1000_0000u32 } else { 0u32 }) | (if s.i { 0x80u32 } else { 0u32 }) | (if s.f {
            0x40u32
        } else {
            0u32
        }) | (if s.t { 0x20u32 } else { 0u32 }) | (mode_bits(s.mode) & 0x1F),
    ensures
        val == pack_status(s),
{
    lemma_mode_bits_masked(s.mode);
}

proof fn lemma_mode_bits_masked(mode: CpuMode)
    ensures
        mode_bits(mode) & 0x1F == mode_bits(mode),
        mode_bits(mode) <= 0x1F,
{
    assert(0x10u32 & 0x1F == 0x10u32 && 0x11u32 & 0x1F == 0x11u32 && 0x12u32 & 0x1F == 0x12u32 && 0x13u32 & 0x1F == 0x13u32
        && 0x17u32 & 0x1F == 0x17u32 && 0x1Bu32 & 0x1F == 0x1Bu32 && 0x1Fu32 & 0x1F == 0x1Fu32) by (bit_vector);
}

/// Unpacking a packed status register gives it back.
pub proof fn lemma_status_roundtrip(s: StatusRegister)
    ensures
        unpack_status(pack_status(s)) == s,
{
    let n = if s.n { 0x8000_0000u32 } else { 0u32 };
    let z = if s.z { 0x4000_0000u32 } else { 0u32 };
    let c = if s.c { 0x2000_0000u32 } else { 0u32 };
    let v = if s.v { 0x1000_0000u32 } else { 0u32 };
    let i = if s.i { 0x80u32 } else { 0u32 };
    let f = if s.f { 0x40u32 } else { 0u32 };
    let t = if s.t { 0x20u32 } else { 0u32 };
    let m = mode_bits(s.mode);
    lemma_mode_bits_masked(s.mode);
    let val = n | z | c | v | i | f | t | m;
    assert(pack_status(s) == val);
    assert({
        &&& (val & (1u32 << 31u32) != 0) == (n != 0)
        &&& (val & (1u32 << 30u32) != 0) == (z != 0)
        &&& (val & (1u32 << 29u32) != 0) == (c != 0)
        &&& (val & (1u32 << 28u32) != 0) == (v != 0)
        &&& (val & (1u32 << 7u32) != 0) == (i != 0)
        &&& (val & (1u32 << 6u32) != 0) == (f != 0)
        &&& (val & (1u32 << 5u32) != 0) == (t != 0)
        &&& val & 0x1F == m
    }) by (bit_vector)
        requires
            n == 0 || n == 0x8000_0000u32,
            z == 0 || z == 0x4000_0000u32,
            c == 0 || c == 0x2000_0000u32,
            v == 0 || v == 0x1000_0000u32,
            i == 0 || i == 0x80u32,
            f == 0 || f == 0x40u32,
            t == 0 || t == 0x20u32,
            m <= 0x1F,
            val == n | z | c | v | i | f | t | m,
    ;
}


/// The register file as a value.
pub struct RegsModel {
    pub r0_r7: Seq<u32>,
    pub r8_r12: Seq<u32>,
    pub r8_r12_fiq: Seq<u32>,
    pub r13: Seq<u32>,
    pub r14: Seq<u32>,
    pub r15: u32,
    pub cpsr: StatusRegister,
    pub spsr: Seq<StatusRegister>,
    pub pc_written: bool,
}

impl RegsModel {
    pub open spec fn wf(self) -> bool {
        &&& self.r0_r7.len() == 8
        &&& self.r8_r12.len() == 5
        &&& self.r8_r12_fiq.len() == 5
        &&& self.r13.len() == 6
        &&& self.r14.len() == 6
        &&& self.spsr.len() == 6
    }

    /// Register `r` as the current mode sees it: R8-R12 are banked in FIQ mode, R13 and
    /// R14 in each mode but System, which shares User's.
    pub open spec fn get(self, r: u8) -> u32 {
        if r <= 7 {
            self.r0_r7[r as int]
        } else if r <= 12 {
            if self.cpsr.mode == CpuMode::Fiq {
                self.r8_r12_fiq[r - 8]
            } else {
                self.r8_r12[r - 8]
            }
        } else if r == 13 {
            self.r13[bank_of(self.cpsr.mode)]
        } else if r == 14 {
            self.r14[bank_of(self.cpsr.mode)]
        } else {
            self.r15
        }
    }

    /// The registers after writing `val` to register `r` as the current mode sees it;
    /// a write to R15 is aligned to the state (2 bytes in Thumb, 4 in ARM) and marks the
    /// PC as written.
    pub open spec fn set(self, r: u8, val: u32) -> RegsModel {
        if r <= 7 {
            RegsModel { r0_r7: self.r0_r7.update(r as int, val), ..self }
        } else if r <= 12 {
            if self.cpsr.mode == CpuMode::Fiq {
                RegsModel { r8_r12_fiq: self.r8_r12_fiq.update(r - 8, val), ..self }
            } else {
                RegsModel { r8_r12: self.r8_r12.update(r - 8, val), ..self }
            }
        } else if r == 13 {
            RegsModel { r13: self.r13.update(bank_of(self.cpsr.mode), val), ..self }
        } else if r == 14 {
            RegsModel { r14: self.r14.update(bank_of(self.cpsr.mode), val), ..self }
        } else {
            RegsModel { r15: val & !(if self.cpsr.t { 1u32 } else { 3u32 }), pc_written: true, ..self }
        }
    }

    /// The registers in mode `mode`.
    pub open spec fn with_mode(self, mode: CpuMode) -> RegsModel {
        RegsModel { cpsr: StatusRegister { mode, ..self.cpsr }, ..self }
    }

    /// The saved status register of the current mode.
    pub open spec fn spsr_of(self) -> StatusRegister {
        self.spsr[bank_of(self.cpsr.mode)]
    }

    /// The registers with the current mode's saved status register set to `val`.
    pub open spec fn with_spsr(self, val: StatusRegister) -> RegsModel {
        RegsModel { spsr: self.spsr.update(bank_of(self.cpsr.mode), val), ..self }
    }
}

/// The 37 registers of the ARM7TDMI.
#[derive(Debug, Clone, Copy, PartialEq, Eq)]
pub struct Registers {
    /// R0-R7, shared by all modes.
    pub r0_r7: [u32; 8],
    /// R8-R12 of every mode but FIQ.
    pub r8_r12: [u32; 5],
    /// R8-R12 of FIQ mode.
    pub r8_r12_fiq: [u32; 5],
    /// R13 (SP) of User/System, FIQ, IRQ, Supervisor, Abort, Undefined.
    pub r13: [u32; 6],
    /// R14 (LR) of the same modes.
    pub r14: [u32; 6],
    /// R15, the program counter.
    pub r15: u32,
    /// The current program status register.
    pub cpsr: StatusRegister,
    /// The saved status registers, by the same banks (bank 0 unused).
    pub spsr: [StatusRegister; 6],
    /// Whether the instruction being executed wrote the PC.
    pub pc_written: bool,
}

impl View for Registers {
    type V = RegsModel;

    open spec fn view(&self) -> RegsModel {
        RegsModel {
            r0_r7: self.r0_r7@,
            r8_r12: self.r8_r12@,
            r8_r12_fiq: self.r8_r12_fiq@,
            r13: self.r13@,
            r14: self.r14@,
            r15: self.r15,
            cpsr: self.cpsr,
            spsr: self.spsr@,
            pc_written: self.pc_written,
        }
    }
}

impl RegsModel {
    /// The power-on register file: all zero but the User/System stack pointer at the top
    /// of internal work RAM, in System mode with interrupts disabled.
    pub open spec fn initial() -> RegsModel {
        RegsModel {
            r0_r7: Seq::new(8, |i: int| 0u32),
            r8_r12: Seq::new(5, |i: int| 0u32),
            r8_r12_fiq: Seq::new(5, |i: int| 0u32),
            r13: Seq::new(6, |i: int| if i == 0 { 0x03007F00u32 } else { 0u32 }),
            r14: Seq::new(6, |i: int| 0u32),
            r15: 0,
            cpsr: StatusRegister::spec_new(),
            spsr: Seq::new(6, |i: int| StatusRegister::spec_default()),
            pc_written: false,
        }
    }
}

impl Default for Registers {
    /// The power-on register file.
    fn default() -> (r: Self)
        ensures
            r@ == RegsModel::initial(),
    {
        let r = Registers {
            r0_r7: [0u32; 8],
            r8_r12: [0u32; 5],
            r8_r12_fiq: [0u32; 5],
            r13: [0x03007F00u32, 0, 0, 0, 0, 0],
            r14: [0u32; 6],
            r15: 0,
            cpsr: StatusRegister::new(),
            spsr: [StatusRegister::default(); 6],
            pc_written: false,
        };
        assert(r@.r0_r7 =~= RegsModel::initial().r0_r7);
        assert(r@.r8_r12 =~= RegsModel::initial().r8_r12);
        assert(r@.r8_r12_fiq =~= RegsModel::initial().r8_r12_fiq);
        assert(r@.r13 =~= RegsModel::initial().r13);
        assert(r@.r14 =~= RegsModel::initial().r14);
        assert(r@.spsr =~= RegsModel::initial().spsr);
        r
    }
}

impl Registers {
    /// Register `r` (0-15) as the current mode sees it.
    pub fn get(&self, reg: u8) -> (v: u32)
        requires
            reg <= 15,
        ensures
            v == self@.get(reg),
    {
        let mode = self.cpsr.mode;
        if reg <= 7 {
            self.r0_r7[reg as usize]
        } else if reg <= 12 {
            if mode == CpuMode::Fiq {
                self.r8_r12_fiq[(reg - 8) as usize]
            } else {
                self.r8_r12[(reg - 8) as usize]
            }
        } else if reg == 13 {
            self.r13[banked_index(mode)]
        } else if reg == 14 {
            self.r14[banked_index(mode)]
        } else {
            self.r15
        }
    }

    /// Writes register `r` (0-15) as the current mode sees it.
    pub fn set(&mut self, reg: u8, val: u32)
        requires
            reg <= 15,
        ensures
            final(self)@ == old(self)@.set(reg, val),
    {
        let mode = self.cpsr.mode;
        if reg <= 7 {
            self.r0_r7[reg as usize] = val;
        } else if reg <= 12 {
            if mode == CpuMode::Fiq {
                self.r8_r12_fiq[(reg - 8) as usize] = val;
            } else {
                self.r8_r12[(reg - 8) as usize] = val;
            }
        } else if reg == 13 {
            self.r13[banked_index(mode)] = val;
        } else if reg == 14 {
            self.r14[banked_index(mode)] = val;
        } else {
            let alignment: u32 = if self.cpsr.t { 1 } else { 3 };
            self.r15 = val & !alignment;
            self.pc_written = true;
        }
    }

    /// The saved status register of the current mode, which must not be User or System.
    pub fn get_spsr(&self) -> (s: StatusRegister)
        requires
            bank_of(self.cpsr.mode) != 0,
        ensures
            s == self@.spsr_of(),
    {
        self.spsr[banked_index(self.cpsr.mode)]
    }

    /// Sets the saved status register of the current mode, which must not be User or System.
    pub fn set_spsr(&mut self, val: StatusRegister)
        requires
            bank_of(old(self).cpsr.mode) != 0,
        ensures
            final(self)@ == old(self)@.with_spsr(val),
    {
        let idx = banked_index(self.cpsr.mode);
        self.spsr[idx] = val;
    }

    /// Enters mode `new_mode`; the banked registers follow the mode.
    pub fn switch_mode(&mut self, new_mode: CpuMode)
        ensures
            final(self)@ == old(self)@.with_mode(new_mode),
    {
        self.cpsr.mode = new_mode;
    }
}

/// A register written and read back in the same mode gives what was written; R15 gives
/// it aligned to the state.
pub proof fn lemma_set_get(regs: RegsModel, r: u8, val: u32)
    requires
        regs.wf(),
        r <= 15,
    ensures
        regs.set(r, val).get(r) == (if r == 15 { val & !(if regs.cpsr.t { 1u32 } else { 3u32 }) } else { val }),
        regs.set(r, val).wf(),
        regs.set(r, val).cpsr == regs.cpsr,
{
}

/// Writing one register leaves every other register, as any mode sees it, unchanged.
pub proof fn lemma_set_other(regs: RegsModel, r: u8, val: u32, q: u8)
    requires
        regs.wf(),
        r <= 15,
        q <= 15,
        q != r,
    ensures
        regs.set(r, val).get(q) == regs.get(q),
{
}

/// A mode's banked R13 and R14 are untouched by writes made in a mode of another bank.
pub proof fn lemma_banked_isolation(regs: RegsModel, m1: CpuMode, m2: CpuMode, r: u8, val: u32)
    requires
        regs.wf(),
        13 <= r <= 14,
        bank_of(m1) != bank_of(m2),
    ensures
        regs.with_mode(m2).set(r, val).with_mode(m1).get(r) == regs.with_mode(m1).get(r),
{
}

} // verus!
