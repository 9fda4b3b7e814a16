//! The Game Boy CPU (Sharp LR35902): registers, flags, interrupts and the
//! instruction set.
use vstd::prelude::*;
use crate::common::StepResult;
use crate::gb::bus::{Bus, BusModel, is_plain_memory, lemma_memory_write_read};
use crate::gb::cartridge::lemma_ram_write_read;
use crate::bits::lemma_and_le_u8;
use crate::text::{hex_fixed, hex_text};
use vstd::string::StringExecFns;

verus! {

pub const FLAG_Z: u8 = 0x80;
pub const FLAG_N: u8 = 0x40;
pub const FLAG_H: u8 = 0x20;
pub const FLAG_C: u8 = 0x10;

/// The CPU registers.
#[derive(Debug, Clone, Copy, PartialEq, Eq, Structural)]
pub struct Registers {
    pub a: u8,
    pub f: u8,
    pub b: u8,
    pub c: u8,
    pub d: u8,
    pub e: u8,
    pub h: u8,
    pub l: u8,
    pub sp: u16,
    pub pc: u16,
}

/// Sign-extends an 8-bit offset to 16 bits.
pub open spec fn sext8(b: u8) -> u16 {
    if b >= 0x80 {
        ((b as u16) | 0xFF00u16) as u16
    } else {
        b as u16
    }
}

/// A 16-bit value from its high and low bytes.
pub open spec fn word(hi: u8, lo: u8) -> u16 {
    ((hi as u16) << 8u16) | (lo as u16)
}

impl Registers {
    /// Register values after the boot ROM hands over to the cartridge.
    pub open spec fn spec_default() -> Registers {
        Registers { a: 0x01, f: 0xB0, b: 0x00, c: 0x13, d: 0x00, e: 0xD8, h: 0x01, l: 0x4D, sp: 0xFFFE, pc: 0x0100 }
    }

    pub open spec fn bc(self) -> u16 {
        word(self.b, self.c)
    }

    pub open spec fn de(self) -> u16 {
        word(self.d, self.e)
    }

    pub open spec fn hl(self) -> u16 {
        word(self.h, self.l)
    }

    pub open spec fn with_bc(self, v: u16) -> Registers {
        Registers { b: (v >> 8u16) as u8, c: v as u8, ..self }
    }

    pub open spec fn with_de(self, v: u16) -> Registers {
        Registers { d: (v >> 8u16) as u8, e: v as u8, ..self }
    }

    pub open spec fn with_hl(self, v: u16) -> Registers {
        Registers { h: (v >> 8u16) as u8, l: v as u8, ..self }
    }

    /// The registers with flag `mask` set or cleared.
    pub open spec fn with_flag(self, mask: u8, on: bool) -> Registers {
        Registers { f: if on { self.f | mask } else { self.f & !mask }, ..self }
    }

    /// The registers with F holding exactly the given Z, N, H and C flags.
    pub open spec fn with_flags(self, z: bool, n: bool, h: bool, c: bool) -> Registers {
        Registers { f: 0, ..self }.with_flag(FLAG_Z, z).with_flag(FLAG_N, n).with_flag(FLAG_H, h).with_flag(
            FLAG_C,
            c,
        )
    }

    pub open spec fn flag(self, mask: u8) -> bool {
        self.f & mask != 0
    }

    pub open spec fn carry_value(self) -> u8 {
        if self.flag(FLAG_C) { 1 } else { 0 }
    }

    /// ADD A,v
    pub open spec fn add_a(self, v: u8) -> Registers {
        let r = self.a.wrapping_add(v);
        Registers { a: r, ..self }.with_flags(r == 0, false, (self.a & 0x0F) + (v & 0x0F) > 0x0F, self.a + v > 0xFF)
    }

    /// ADC A,v
    pub open spec fn adc_a(self, v: u8) -> Registers {
        let cv = self.carry_value();
        let r = self.a.wrapping_add(v).wrapping_add(cv);
        Registers { a: r, ..self }.with_flags(
            r == 0,
            false,
            (self.a & 0x0F) + (v & 0x0F) + cv > 0x0F,
            self.a + v + cv > 0xFF,
        )
    }

    /// SUB A,v
    pub open spec fn sub_a(self, v: u8) -> Registers {
        let r = self.a.wrapping_sub(v);
        Registers { a: r, ..self }.with_flags(r == 0, true, (self.a & 0x0F) < (v & 0x0F), self.a < v)
    }

    /// SBC A,v
    pub open spec fn sbc_a(self, v: u8) -> Registers {
        let cv = self.carry_value();
        let r = self.a.wrapping_sub(v).wrapping_sub(cv);
        Registers { a: r, ..self }.with_flags(r == 0, true, (self.a & 0x0F) < (v & 0x0F) + cv, self.a < v + cv)
    }

    /// AND A,v
    pub open spec fn and_a(self, v: u8) -> Registers {
        let r = self.a & v;
        Registers { a: r, ..self }.with_flags(r == 0, false, true, false)
    }

    /// XOR A,v
    pub open spec fn xor_a(self, v: u8) -> Registers {
        let r = self.a ^ v;
        Registers { a: r, ..self }.with_flags(r == 0, false, false, false)
    }

    /// OR A,v
    pub open spec fn or_a(self, v: u8) -> Registers {
        let r = self.a | v;
        Registers { a: r, ..self }.with_flags(r == 0, false, false, false)
    }

    /// CP A,v: the flags of SUB, with A unchanged.
    pub open spec fn cp_a(self, v: u8) -> Registers {
        self.with_flags(self.a.wrapping_sub(v) == 0, true, (self.a & 0x0F) < (v & 0x0F), self.a < v)
    }

    /// The eight-bit ALU operation `op` (0 ADD, 1 ADC, 2 SUB, 3 SBC, 4 AND, 5 XOR, 6 OR, 7 CP).
    pub open spec fn alu(self, op: u8, v: u8) -> Registers {
        if op == 0 {
            self.add_a(v)
        } else if op == 1 {
            self.adc_a(v)
        } else if op == 2 {
            self.sub_a(v)
        } else if op == 3 {
            self.sbc_a(v)
        } else if op == 4 {
            self.and_a(v)
        } else if op == 5 {
            self.xor_a(v)
        } else if op == 6 {
            self.or_a(v)
        } else {
            self.cp_a(v)
        }
    }

    /// INC of an 8-bit value: the flags after it (C kept) and the result.
    pub open spec fn inc8(self, v: u8) -> (Registers, u8) {
        let r = v.wrapping_add(1);
        (self.with_flags(r == 0, false, (v & 0x0F) == 0x0F, self.flag(FLAG_C)), r)
    }

    /// DEC of an 8-bit value: the flags after it (C kept) and the result.
    pub open spec fn dec8(self, v: u8) -> (Registers, u8) {
        let r = v.wrapping_sub(1);
        (self.with_flags(r == 0, true, (v & 0x0F) == 0x00, self.flag(FLAG_C)), r)
    }

    /// ADD HL,v: Z kept, N cleared, H from bit 11, C from bit 15.
    pub open spec fn add_hl(self, v: u16) -> Registers {
        let hl = self.hl();
        Registers { f: self.f & !(FLAG_N | FLAG_H | FLAG_C), ..self }.with_flag(
            FLAG_H,
            (hl & 0x0FFF) + (v & 0x0FFF) > 0x0FFF,
        ).with_flag(FLAG_C, hl + v > 0xFFFF).with_hl(hl.wrapping_add(v))
    }

    /// SP plus a signed offset, with the flags of ADD SP,e (Z and N cleared).
    pub open spec fn sp_offset_flags(self, offset: u8) -> Registers {
        let value = sext8(offset);
        let sp = self.sp;
        Registers { f: 0, ..self }.with_flag(FLAG_H, (sp & 0x0F) + (value & 0x0F) > 0x0F).with_flag(
            FLAG_C,
            (sp & 0xFF) + (value & 0xFF) > 0xFF,
        )
    }

    /// DAA: decimal adjustment of A after a BCD addition or subtraction.
    pub open spec fn daa(self) -> Registers {
        let a = self.a;
        let adj1: u8 = if self.flag(FLAG_H) || (a & 0x0F) > 9 { 0x06 } else { 0 };
        let big = self.flag(FLAG_C) || a > 0x99;
        let adjust: u8 = if big { adj1 | 0x60 } else { adj1 };
        let r = if self.flag(FLAG_N) { a.wrapping_sub(adjust) } else { a.wrapping_add(adjust) };
        Registers { a: r, ..self }.with_flag(FLAG_Z, r == 0).with_flag(FLAG_H, false).with_flag(FLAG_C, big)
    }

    /// The condition of a conditional jump, call or return: 0 NZ, 1 Z, 2 NC, 3 C.
    pub open spec fn condition(self, cc: u8) -> bool {
        if cc == 0 {
            !self.flag(FLAG_Z)
        } else if cc == 1 {
            self.flag(FLAG_Z)
        } else if cc == 2 {
            !self.flag(FLAG_C)
        } else {
            self.flag(FLAG_C)
        }
    }
}

impl Default for Registers {
    fn default() -> (r: Self)
        ensures
            r == Registers::spec_default(),
    {
        Registers { a: 0x01, f: 0xB0, b: 0x00, c: 0x13, d: 0x00, e: 0xD8, h: 0x01, l: 0x4D, sp: 0xFFFE, pc: 0x0100 }
    }
}

/// The CPU: its registers, the HALT state, the interrupt master enable, and whether EI
/// has asked for the master enable after the next instruction.
#[derive(Debug, Clone, Copy, PartialEq, Eq, Structural)]
pub struct Cpu {
    pub registers: Registers,
    pub halted: bool,
    pub ime: bool,
    pub ime_pending: bool,
}

/// Errors from executing instructions.
#[derive(Debug, Clone, Copy, PartialEq, Eq, Structural)]
pub enum CpuError {
    UnimplementedOpcode { opcode: u8, address: u16 },
}

impl CpuError {
    /// The text shown for the error.
    pub open spec fn text(self) -> Seq<char> {
        match self {
            CpuError::UnimplementedOpcode { opcode, address } => "unimplemented opcode 0x"@
                + hex_fixed(opcode as nat, 2) + " at address 0x"@ + hex_fixed(address as nat, 4),
        }
    }

    /// The text shown for the error.
    pub fn message(&self) -> (s: String)
        ensures
            s@ == self.text(),
    {
        match self {
            CpuError::UnimplementedOpcode { opcode, address } => {
                let mut s = String::from_str("unimplemented opcode 0x");
                s.append(hex_text(*opcode as u64, 2).as_str());
                s.append(" at address 0x");
                s.append(hex_text(*address as u64, 4).as_str());
                s
            },
        }
    }
}

/// The CPU and the bus together: what an instruction reads and changes.
pub struct GbState {
    pub cpu: Cpu,
    pub bus: BusModel,
}

pub open spec fn state(cpu: Cpu, bus: BusModel) -> GbState {
    GbState { cpu, bus }
}

/// The cycles an instruction took, and whether it halted the CPU.
pub open spec fn done(s: GbState, cycles: u32, halted: bool) -> (GbState, StepResult) {
    (s, StepResult { cycles, halted })
}

impl GbState {
    pub open spec fn regs(self) -> Registers {
        self.cpu.registers
    }

    pub open spec fn with_regs(self, r: Registers) -> GbState {
        GbState { cpu: Cpu { registers: r, ..self.cpu }, ..self }
    }

    pub open spec fn with_bus(self, b: BusModel) -> GbState {
        GbState { bus: b, ..self }
    }

    /// Reads the byte at PC and advances PC.
    pub open spec fn fetch8(self) -> (GbState, u8) {
        let pc = self.regs().pc;
        (self.with_regs(Registers { pc: pc.wrapping_add(1), ..self.regs() }), self.bus.read8(pc))
    }

    /// Reads the little-endian word at PC and advances PC by two.
    pub open spec fn fetch16(self) -> (GbState, u16) {
        let (s1, lo) = self.fetch8();
        let (s2, hi) = s1.fetch8();
        (s2, word(hi, lo))
    }

    /// Pushes a word: SP drops by two, then the low and high bytes are written.
    pub open spec fn push16(self, v: u16) -> GbState {
        let sp = self.regs().sp.wrapping_sub(2);
        let s1 = self.with_regs(Registers { sp, ..self.regs() });
        let b1 = s1.bus.write8(sp, v as u8);
        let b2 = b1.write8(sp.wrapping_add(1), (v >> 8u16) as u8);
        s1.with_bus(b2)
    }

    /// Pops a word: the low and high bytes at SP are read, then SP rises by two.
    pub open spec fn pop16(self) -> (GbState, u16) {
        let sp = self.regs().sp;
        let lo = self.bus.read8(sp);
        let hi = self.bus.read8(sp.wrapping_add(1));
        (self.with_regs(Registers { sp: sp.wrapping_add(2), ..self.regs() }), word(hi, lo))
    }

    /// The 8-bit operand with code 0-7: B, C, D, E, H, L, (HL), A.
    pub open spec fn read_reg8(self, code: u8) -> u8 {
        let r = self.regs();
        if code == 0 {
            r.b
        } else if code == 1 {
            r.c
        } else if code == 2 {
            r.d
        } else if code == 3 {
            r.e
        } else if code == 4 {
            r.h
        } else if code == 5 {
            r.l
        } else if code == 6 {
            self.bus.read8(r.hl())
        } else {
            r.a
        }
    }

    /// Stores into the 8-bit operand with code 0-7.
    pub open spec fn write_reg8(self, code: u8, v: u8) -> GbState {
        let r = self.regs();
        if code == 0 {
            self.with_regs(Registers { b: v, ..r })
        } else if code == 1 {
            self.with_regs(Registers { c: v, ..r })
        } else if code == 2 {
            self.with_regs(Registers { d: v, ..r })
        } else if code == 3 {
            self.with_regs(Registers { e: v, ..r })
        } else if code == 4 {
            self.with_regs(Registers { h: v, ..r })
        } else if code == 5 {
            self.with_regs(Registers { l: v, ..r })
        } else if code == 6 {
            self.with_bus(self.bus.write8(r.hl(), v))
        } else {
            self.with_regs(Registers { a: v, ..r })
        }
    }

    /// Interrupts both enabled in IE and requested in IF.
    pub open spec fn pending_interrupts(self) -> u8 {
        self.bus.read8(0xFFFF) & self.bus.read8(0xFF0F)
    }

    /// Dispatches the highest-priority pending interrupt when IME is set: the
    /// CPU leaves HALT, clears IME, pushes PC, clears the request and jumps to its vector.
    pub open spec fn service_interrupt(self) -> Option<GbState> {
        let active = self.pending_interrupts();
        if active == 0 || !self.cpu.ime {
            None
        } else {
            let (flag, vector): (u8, u16) = if active & 0x01 != 0 {
                (0x01, 0x40)
            } else if active & 0x02 != 0 {
                (0x02, 0x48)
            } else if active & 0x04 != 0 {
                (0x04, 0x50)
            } else if active & 0x08 != 0 {
                (0x08, 0x58)
            } else if active & 0x10 != 0 {
                (0x10, 0x60)
            } else {
                (0, 0)
            };
            if flag == 0 {
                None
            } else {
                let s1 = GbState { cpu: Cpu { halted: false, ime: false, ..self.cpu }, ..self };
                let s2 = s1.push16(s1.regs().pc);
                let current = s2.bus.read8(0xFF0F);
                let s3 = s2.with_bus(s2.bus.write8(0xFF0F, current & !flag));
                Some(s3.with_regs(Registers { pc: vector, ..s3.regs() }))
            }
        }
    }
}


/// Opcodes the CPU does not implement.
pub open spec fn unimplemented_opcode(op: u8) -> bool {
    op == 0x10 || op == 0x17 || op == 0x1F || op == 0xD3 || op == 0xDB || op == 0xDD || op == 0xE3
        || op == 0xE4 || op == 0xEB || op == 0xEC || op == 0xED || op == 0xF4 || op == 0xFC || op == 0xFD
}

impl GbState {
    /// INC r / DEC r (opcodes 00rrr100 / 00rrr101).
    pub open spec fn op_inc_dec(self, op: u8) -> (GbState, StepResult) {
        let reg = (op >> 3u8) & 7;
        let v = self.read_reg8(reg);
        let (r, res) = if op & 7 == 4 { self.regs().inc8(v) } else { self.regs().dec8(v) };
        done(self.with_regs(r).write_reg8(reg, res), if reg == 6 { 12 } else { 4 }, false)
    }

    /// LD r,n (opcodes 00rrr110).
    pub open spec fn op_ld_imm8(self, op: u8) -> (GbState, StepResult) {
        let (s1, n) = self.fetch8();
        let reg = (op >> 3u8) & 7;
        done(s1.write_reg8(reg, n), if reg == 6 { 12 } else { 8 }, false)
    }

    /// The accumulator and flag instructions: DAA, CPL, RLCA, RRCA, SCF, CCF.
    pub open spec fn op_acc(self, op: u8) -> (GbState, StepResult) {
        let r = self.regs();
        let r2 = if op == 0x27 {
            r.daa()
        } else if op == 0x2F {
            Registers { a: !r.a, ..r }.with_flag(FLAG_N, true).with_flag(FLAG_H, true)
        } else if op == 0x07 {
            Registers { a: (r.a << 1u8) | (r.a >> 7u8), ..r }.with_flag(FLAG_Z, false).with_flag(FLAG_N, false).with_flag(
                FLAG_H,
                false,
            ).with_flag(FLAG_C, r.a & 0x80 != 0)
        } else if op == 0x0F {
            Registers { a: (r.a >> 1u8) | (r.a << 7u8), ..r }.with_flag(FLAG_Z, false).with_flag(FLAG_N, false).with_flag(
                FLAG_H,
                false,
            ).with_flag(FLAG_C, r.a & 0x01 != 0)
        } else if op == 0x37 {
            r.with_flag(FLAG_N, false).with_flag(FLAG_H, false).with_flag(FLAG_C, true)
        } else {
            r.with_flag(FLAG_N, false).with_flag(FLAG_H, false).with_flag(FLAG_C, !r.flag(FLAG_C))
        };
        done(self.with_regs(r2), 4, false)
    }

    /// Loads and stores through BC, DE and HL (with HL increment or decrement).
    pub open spec fn op_ld_indirect(self, op: u8) -> (GbState, StepResult) {
        let r = self.regs();
        let s1 = if op == 0x02 {
            self.with_bus(self.bus.write8(r.bc(), r.a))
        } else if op == 0x12 {
            self.with_bus(self.bus.write8(r.de(), r.a))
        } else if op == 0x22 {
            self.with_bus(self.bus.write8(r.hl(), r.a)).with_regs(r.with_hl(r.hl().wrapping_add(1)))
        } else if op == 0x32 {
            self.with_bus(self.bus.write8(r.hl(), r.a)).with_regs(r.with_hl(r.hl().wrapping_sub(1)))
        } else if op == 0x0A {
            self.with_regs(Registers { a: self.bus.read8(r.bc()), ..r })
        } else if op == 0x1A {
            self.with_regs(Registers { a: self.bus.read8(r.de()), ..r })
        } else if op == 0x2A {
            self.with_regs(Registers { a: self.bus.read8(r.hl()), ..r }.with_hl(r.hl().wrapping_add(1)))
        } else {
            self.with_regs(Registers { a: self.bus.read8(r.hl()), ..r }.with_hl(r.hl().wrapping_sub(1)))
        };
        done(s1, 8, false)
    }

    /// The 16-bit register instructions of block 0: LD rr,nn, INC rr, DEC rr, ADD HL,rr,
    /// and LD (nn),SP.
    pub open spec fn op_reg16(self, op: u8) -> (GbState, StepResult) {
        let r = self.regs();
        if op == 0x01 || op == 0x11 || op == 0x21 || op == 0x31 {
            let (s1, v) = self.fetch16();
            let r1 = s1.regs();
            let r2 = if op == 0x01 {
                r1.with_bc(v)
            } else if op == 0x11 {
                r1.with_de(v)
            } else if op == 0x21 {
                r1.with_hl(v)
            } else {
                Registers { sp: v, ..r1 }
            };
            done(s1.with_regs(r2), 12, false)
        } else if op == 0x03 {
            done(self.with_regs(r.with_bc(r.bc().wrapping_add(1))), 8, false)
        } else if op == 0x13 {
            done(self.with_regs(r.with_de(r.de().wrapping_add(1))), 8, false)
        } else if op == 0x23 {
            done(self.with_regs(r.with_hl(r.hl().wrapping_add(1))), 8, false)
        } else if op == 0x33 {
            done(self.with_regs(Registers { sp: r.sp.wrapping_add(1), ..r }), 8, false)
        } else if op == 0x0B {
            done(self.with_regs(r.with_bc(r.bc().wrapping_sub(1))), 8, false)
        } else if op == 0x1B {
            done(self.with_regs(r.with_de(r.de().wrapping_sub(1))), 8, false)
        } else if op == 0x2B {
            done(self.with_regs(r.with_hl(r.hl().wrapping_sub(1))), 8, false)
        } else if op == 0x3B {
            done(self.with_regs(Registers { sp: r.sp.wrapping_sub(1), ..r }), 8, false)
        } else if op == 0x09 {
            done(self.with_regs(r.add_hl(r.bc())), 8, false)
        } else if op == 0x19 {
            done(self.with_regs(r.add_hl(r.de())), 8, false)
        } else if op == 0x29 {
            done(self.with_regs(r.add_hl(r.hl())), 8, false)
        } else if op == 0x39 {
            done(self.with_regs(r.add_hl(r.sp)), 8, false)
        } else {
            let (s1, addr) = self.fetch16();
            let sp = s1.regs().sp;
            let b1 = s1.bus.write8(addr, sp as u8);
            done(s1.with_bus(b1.write8(addr.wrapping_add(1), (sp >> 8u16) as u8)), 20, false)
        }
    }

    /// JR e and JR cc,e: a relative jump by a signed offset.
    pub open spec fn op_jr(self, op: u8) -> (GbState, StepResult) {
        let (s1, offset) = self.fetch8();
        let r1 = s1.regs();
        if op == 0x18 || r1.condition((op >> 3u8) & 3) {
            done(s1.with_regs(Registers { pc: r1.pc.wrapping_add(sext8(offset)), ..r1 }), 12, false)
        } else {
            done(s1, 8, false)
        }
    }

    /// Block 0 (opcodes 0x00-0x3F).
    pub open spec fn block0(self, op: u8) -> (GbState, StepResult) {
        if op == 0x00 {
            done(self, 4, false)
        } else if op & 7 == 4 || op & 7 == 5 {
            self.op_inc_dec(op)
        } else if op & 7 == 6 {
            self.op_ld_imm8(op)
        } else if op == 0x27 || op == 0x2F || op == 0x07 || op == 0x0F || op == 0x37 || op == 0x3F {
            self.op_acc(op)
        } else if op & 7 == 2 {
            self.op_ld_indirect(op)
        } else if op == 0x18 || op == 0x20 || op == 0x28 || op == 0x30 || op == 0x38 {
            self.op_jr(op)
        } else {
            self.op_reg16(op)
        }
    }

    /// LD r,r' (opcodes 0x40-0x7F other than HALT).
    pub open spec fn op_ld_r_r(self, op: u8) -> (GbState, StepResult) {
        let dest = (op - 0x40) as u8 >> 3u8;
        let src = op & 7;
        let v = self.read_reg8(src);
        done(self.write_reg8(dest, v), if dest == 6 || src == 6 { 8 } else { 4 }, false)
    }

    /// ALU A,r (opcodes 0x80-0xBF).
    pub open spec fn op_alu_r(self, op: u8) -> (GbState, StepResult) {
        let v = self.read_reg8(op & 7);
        done(self.with_regs(self.regs().alu((op >> 3u8) & 7, v)), 4, false)
    }

    /// Jumps, calls, returns, restarts, PUSH and POP of block 3.
    pub open spec fn op_flow(self, op: u8) -> (GbState, StepResult) {
        let r = self.regs();
        let cc = (op >> 3u8) & 3;
        if op == 0xC3 {
            let (s1, addr) = self.fetch16();
            done(s1.with_regs(Registers { pc: addr, ..s1.regs() }), 16, false)
        } else if op == 0xC2 || op == 0xCA || op == 0xD2 || op == 0xDA {
            let (s1, addr) = self.fetch16();
            if r.condition(cc) {
                done(s1.with_regs(Registers { pc: addr, ..s1.regs() }), 16, false)
            } else {
                done(s1, 12, false)
            }
        } else if op == 0xCD || op == 0xC4 || op == 0xCC || op == 0xD4 || op == 0xDC {
            let (s1, addr) = self.fetch16();
            if op == 0xCD || r.condition(cc) {
                let s2 = s1.push16(s1.regs().pc);
                done(s2.with_regs(Registers { pc: addr, ..s2.regs() }), 24, false)
            } else {
                done(s1, 12, false)
            }
        } else if op == 0xC9 || op == 0xD9 {
            let (s1, v) = self.pop16();
            let s2 = s1.with_regs(Registers { pc: v, ..s1.regs() });
            done(if op == 0xD9 { GbState { cpu: Cpu { ime: true, ..s2.cpu }, ..s2 } } else { s2 }, 16, false)
        } else if op == 0xC0 || op == 0xC8 || op == 0xD0 || op == 0xD8 {
            if r.condition(cc) {
                let (s1, v) = self.pop16();
                done(s1.with_regs(Registers { pc: v, ..s1.regs() }), 20, false)
            } else {
                done(self, 8, false)
            }
        } else if op & 0x0F == 0x05 {
            let v = if op == 0xC5 {
                r.bc()
            } else if op == 0xD5 {
                r.de()
            } else if op == 0xE5 {
                r.hl()
            } else {
                word(r.a, r.f & 0xF0)
            };
            done(self.push16(v), 16, false)
        } else if op & 0x0F == 0x01 {
            let (s1, v) = self.pop16();
            let r1 = s1.regs();
            let r2 = if op == 0xC1 {
                r1.with_bc(v)
            } else if op == 0xD1 {
                r1.with_de(v)
            } else if op == 0xE1 {
                r1.with_hl(v)
            } else {
                Registers { a: (v >> 8u16) as u8, f: (v as u8) & 0xF0, ..r1 }
            };
            done(s1.with_regs(r2), 12, false)
        } else {
            let s1 = self.push16(r.pc);
            done(s1.with_regs(Registers { pc: (op & 0x38) as u16, ..s1.regs() }), 16, false)
        }
    }

    /// The data instructions of block 3: immediate ALU, high-page loads, absolute
    /// loads, DI, EI and the SP/HL instructions.
    pub open spec fn op_data3(self, op: u8) -> (GbState, StepResult) {
        let r = self.regs();
        if op & 7 == 6 {
            let (s1, v) = self.fetch8();
            done(s1.with_regs(s1.regs().alu((op >> 3u8) & 7, v)), 8, false)
        } else if op == 0xE0 {
            let (s1, n) = self.fetch8();
            done(s1.with_bus(s1.bus.write8((0xFF00 + n) as u16, r.a)), 12, false)
        } else if op == 0xF0 {
            let (s1, n) = self.fetch8();
            done(s1.with_regs(Registers { a: s1.bus.read8((0xFF00 + n) as u16), ..s1.regs() }), 12, false)
        } else if op == 0xE2 {
            done(self.with_bus(self.bus.write8((0xFF00 + r.c) as u16, r.a)), 8, false)
        } else if op == 0xF2 {
            done(self.with_regs(Registers { a: self.bus.read8((0xFF00 + r.c) as u16), ..r }), 8, false)
        } else if op == 0xEA {
            let (s1, addr) = self.fetch16();
            done(s1.with_bus(s1.bus.write8(addr, r.a)), 16, false)
        } else if op == 0xFA {
            let (s1, addr) = self.fetch16();
            done(s1.with_regs(Registers { a: s1.bus.read8(addr), ..s1.regs() }), 16, false)
        } else if op == 0xF3 {
            done(GbState { cpu: Cpu { ime: false, ime_pending: false, ..self.cpu }, ..self }, 4, false)
        } else if op == 0xFB {
            done(GbState { cpu: Cpu { ime_pending: true, ..self.cpu }, ..self }, 4, false)
        } else if op == 0xE8 {
            let (s1, offset) = self.fetch8();
            let r1 = s1.regs();
            done(s1.with_regs(Registers { sp: r1.sp.wrapping_add(sext8(offset)), ..r1.sp_offset_flags(offset) }), 16, false)
        } else if op == 0xF8 {
            let (s1, offset) = self.fetch8();
            let r1 = s1.regs();
            done(s1.with_regs(r1.sp_offset_flags(offset).with_hl(r1.sp.wrapping_add(sext8(offset)))), 12, false)
        } else if op == 0xF9 {
            done(self.with_regs(Registers { sp: r.hl(), ..r }), 8, false)
        } else {
            done(self.with_regs(Registers { pc: r.hl(), ..r }), 4, false)
        }
    }

    /// The CB-prefixed instructions: rotates, shifts, SWAP, BIT, RES and SET.
    pub open spec fn execute_cb(self, op: u8) -> (GbState, StepResult) {
        let reg = op & 7;
        let v = self.read_reg8(reg);
        let slow: u32 = if reg == 6 { 16 } else { 8 };
        let bit = (op >> 3u8) & 7;
        if op >= 0x40 && op < 0x80 {
            let set = v & (1u8 << bit) != 0;
            let r2 = self.regs().with_flag(FLAG_Z, !set).with_flag(FLAG_N, false).with_flag(FLAG_H, true);
            done(self.with_regs(r2), if reg == 6 { 12 } else { 8 }, false)
        } else if op >= 0x80 && op < 0xC0 {
            done(self.write_reg8(reg, v & !(1u8 << bit)), slow, false)
        } else if op >= 0xC0 {
            done(self.write_reg8(reg, v | (1u8 << bit)), slow, false)
        } else {
            let cin = self.regs().flag(FLAG_C);
            let (res, carry): (u8, bool) = if op < 0x08 {
                ((v << 1u8) | (v >> 7u8), v & 0x80 != 0)
            } else if op < 0x10 {
                ((v >> 1u8) | (v << 7u8), v & 0x01 != 0)
            } else if op < 0x18 {
                ((v << 1u8) | (if cin { 1u8 } else { 0u8 }), v & 0x80 != 0)
            } else if op < 0x20 {
                ((v >> 1u8) | (if cin { 0x80u8 } else { 0u8 }), v & 0x01 != 0)
            } else if op < 0x28 {
                (v << 1u8, v & 0x80 != 0)
            } else if op < 0x30 {
                ((v >> 1u8) | (v & 0x80), v & 0x01 != 0)
            } else if op < 0x38 {
                ((v >> 4u8) | (v << 4u8), false)
            } else {
                (v >> 1u8, v & 0x01 != 0)
            };
            let s1 = self.write_reg8(reg, res);
            done(s1.with_regs(s1.regs().with_flags(res == 0, false, false, carry)), slow, false)
        }
    }

    /// The effect of the instruction with opcode `op`, fetched from `address`;
    /// PC already points past the opcode.
    pub open spec fn execute(self, op: u8, address: u16) -> (GbState, Result<StepResult, CpuError>) {
        if unimplemented_opcode(op) {
            (self, Err(CpuError::UnimplementedOpcode { opcode: op, address }))
        } else {
            let (s, res) = if op < 0x40 {
                self.block0(op)
            } else if op == 0x76 {
                done(GbState { cpu: Cpu { halted: true, ..self.cpu }, ..self }, 4, true)
            } else if op < 0x80 {
                self.op_ld_r_r(op)
            } else if op < 0xC0 {
                self.op_alu_r(op)
            } else if op == 0xCB {
                let (s1, cb) = self.fetch8();
                s1.execute_cb(cb)
            } else if op & 7 == 6 || op == 0xE0 || op == 0xF0 || op == 0xE2 || op == 0xF2 || op == 0xEA
                || op == 0xFA || op == 0xF3 || op == 0xFB || op == 0xE8 || op == 0xF8 || op == 0xF9
                || op == 0xE9 {
                self.op_data3(op)
            } else {
                self.op_flow(op)
            };
            (s, Ok(res))
        }
    }

    /// One CPU step: service an interrupt, or stay halted, or execute the next instruction.
    /// An EI takes effect after the instruction that follows it, unless that is DI.
    pub open spec fn step(self) -> (GbState, Result<StepResult, CpuError>) {
        match self.service_interrupt() {
            Some(s1) => (s1, Ok(StepResult { cycles: 20, halted: false })),
            None => {
                if self.cpu.halted && self.pending_interrupts() == 0 {
                    (self, Ok(StepResult { cycles: 4, halted: true }))
                } else {
                    let s1 = GbState { cpu: Cpu { halted: false, ime_pending: false, ..self.cpu }, ..self };
                    let (s2, op) = s1.fetch8();
                    let (s3, r) = s2.execute(op, s1.regs().pc);
                    if self.cpu.ime_pending && op != 0xF3 {
                        (GbState { cpu: Cpu { ime: true, ..s3.cpu }, ..s3 }, r)
                    } else {
                        (s3, r)
                    }
                }
            },
        }
    }
}


impl Default for Cpu {
    fn default() -> (c: Self)
        ensures
            c == Cpu::spec_new(),
    {
        Cpu::new()
    }
}

impl Cpu {
    pub open spec fn spec_new() -> Cpu {
        Cpu { registers: Registers::spec_default(), halted: false, ime: false, ime_pending: false }
    }

    /// A CPU in its post-boot state: running, interrupts disabled.
    pub fn new() -> (c: Self)
        ensures
            c == Cpu::spec_new(),
    {
        Cpu { registers: Registers::default(), halted: false, ime: false, ime_pending: false }
    }

    /// The program counter.
    pub fn pc(&self) -> (pc: u16)
        ensures
            pc == self.registers.pc,
    {
        self.registers.pc
    }

    /// A copy of the registers.
    pub fn registers(&self) -> (r: Registers)
        ensures
            r == self.registers,
    {
        self.registers
    }

    /// Whether interrupts are enabled (IME).
    pub fn ime_enabled(&self) -> (b: bool)
        ensures
            b == self.ime,
    {
        self.ime
    }

    fn bc(&self) -> (v: u16)
        ensures
            v == self.registers.bc(),
    {
        ((self.registers.b as u16) << 8u16) | (self.registers.c as u16)
    }

    fn de(&self) -> (v: u16)
        ensures
            v == self.registers.de(),
    {
        ((self.registers.d as u16) << 8u16) | (self.registers.e as u16)
    }

    fn hl(&self) -> (v: u16)
        ensures
            v == self.registers.hl(),
    {
        ((self.registers.h as u16) << 8u16) | (self.registers.l as u16)
    }

    fn set_bc(&mut self, value: u16)
        ensures
            *final(self) == (Cpu { registers: old(self).registers.with_bc(value), ..*old(self) }),
    {
        self.registers.b = (value >> 8u16) as u8;
        self.registers.c = value as u8;
    }

    fn set_de(&mut self, value: u16)
        ensures
            *final(self) == (Cpu { registers: old(self).registers.with_de(value), ..*old(self) }),
    {
        self.registers.d = (value >> 8u16) as u8;
        self.registers.e = value as u8;
    }

    fn set_hl(&mut self, value: u16)
        ensures
            *final(self) == (Cpu { registers: old(self).registers.with_hl(value), ..*old(self) }),
    {
        self.registers.h = (value >> 8u16) as u8;
        self.registers.l = value as u8;
    }

    fn set_flag(&mut self, mask: u8, enabled: bool)
        ensures
            *final(self) == (Cpu { registers: old(self).registers.with_flag(mask, enabled), ..*old(self) }),
    {
        if enabled {
            self.registers.f = self.registers.f | mask;
        } else {
            self.registers.f = self.registers.f & !mask;
        }
    }

    fn update_flags(&mut self, z: bool, n: bool, h: bool, c: bool)
        ensures
            *final(self) == (Cpu { registers: old(self).registers.with_flags(z, n, h, c), ..*old(self) }),
    {
        self.registers.f = 0;
        self.set_flag(FLAG_Z, z);
        self.set_flag(FLAG_N, n);
        self.set_flag(FLAG_H, h);
        self.set_flag(FLAG_C, c);
    }

    fn alu(&mut self, op: u8, value: u8)
        ensures
            *final(self) == (Cpu { registers: old(self).registers.alu(op, value), ..*old(self) }),
    {
        let a = self.registers.a;
        let carry_val: u8 = if self.registers.f & FLAG_C != 0 { 1 } else { 0 };
        proof {
            lemma_and_le_u8(a, 0x0F);
            lemma_and_le_u8(value, 0x0F);
        }
        if op == 0 {
            let result = a.wrapping_add(value);
            self.registers.a = result;
            self.update_flags(result == 0, false, (a & 0x0F) + (value & 0x0F) > 0x0F, a as u16 + value as u16 > 0xFF);
        } else if op == 1 {
            let result = a.wrapping_add(value).wrapping_add(carry_val);
            self.registers.a = result;
            self.update_flags(
                result == 0,
                false,
                (a & 0x0F) + (value & 0x0F) + carry_val > 0x0F,
                a as u16 + value as u16 + carry_val as u16 > 0xFF,
            );
        } else if op == 2 {
            let result = a.wrapping_sub(value);
            self.registers.a = result;
            self.update_flags(result == 0, true, (a & 0x0F) < (value & 0x0F), a < value);
        } else if op == 3 {
            let result = a.wrapping_sub(value).wrapping_sub(carry_val);
            self.registers.a = result;
            self.update_flags(
                result == 0,
                true,
                (a & 0x0F) < (value & 0x0F) + carry_val,
                (a as u16) < value as u16 + carry_val as u16,
            );
        } else if op == 4 {
            let result = a & value;
            self.registers.a = result;
            self.update_flags(result == 0, false, true, false);
        } else if op == 5 {
            let result = a ^ value;
            self.registers.a = result;
            self.update_flags(result == 0, false, false, false);
        } else if op == 6 {
            let result = a | value;
            self.registers.a = result;
            self.update_flags(result == 0, false, false, false);
        } else {
            let result = a.wrapping_sub(value);
            self.update_flags(result == 0, true, (a & 0x0F) < (value & 0x0F), a < value);
        }
    }

    fn fetch8(&mut self, bus: &Bus) -> (v: u8)
        requires
            bus.wf(),
        ensures
            (state(*final(self), bus@), v) == state(*old(self), bus@).fetch8(),
    {
        let byte = bus.read8(self.registers.pc);
        self.registers.pc = self.registers.pc.wrapping_add(1);
        byte
    }

    fn fetch16(&mut self, bus: &Bus) -> (v: u16)
        requires
            bus.wf(),
        ensures
            (state(*final(self), bus@), v) == state(*old(self), bus@).fetch16(),
    {
        let low = self.fetch8(bus);
        let high = self.fetch8(bus);
        ((high as u16) << 8u16) | (low as u16)
    }

    fn push16(&mut self, value: u16, bus: &mut Bus)
        requires
            old(bus).wf(),
        ensures
            state(*final(self), final(bus)@) == state(*old(self), old(bus)@).push16(value),
            final(bus).wf(),
    {
        self.registers.sp = self.registers.sp.wrapping_sub(2);
        bus.write8(self.registers.sp, value as u8);
        bus.write8(self.registers.sp.wrapping_add(1), (value >> 8u16) as u8);
    }

    fn pop16(&mut self, bus: &Bus) -> (v: u16)
        requires
            bus.wf(),
        ensures
            (state(*final(self), bus@), v) == state(*old(self), bus@).pop16(),
    {
        let low = bus.read8(self.registers.sp);
        let high = bus.read8(self.registers.sp.wrapping_add(1));
        self.registers.sp = self.registers.sp.wrapping_add(2);
        ((high as u16) << 8u16) | (low as u16)
    }

    fn read_reg8(&self, code: u8, bus: &Bus) -> (v: u8)
        requires
            bus.wf(),
        ensures
            v == state(*self, bus@).read_reg8(code),
    {
        if code == 0 {
            self.registers.b
        } else if code == 1 {
            self.registers.c
        } else if code == 2 {
            self.registers.d
        } else if code == 3 {
            self.registers.e
        } else if code == 4 {
            self.registers.h
        } else if code == 5 {
            self.registers.l
        } else if code == 6 {
            bus.read8(self.hl())
        } else {
            self.registers.a
        }
    }

    fn write_reg8(&mut self, code: u8, value: u8, bus: &mut Bus)
        requires
            old(bus).wf(),
        ensures
            state(*final(self), final(bus)@) == state(*old(self), old(bus)@).write_reg8(code, value),
            final(bus).wf(),
    {
        if code == 0 {
            self.registers.b = value;
        } else if code == 1 {
            self.registers.c = value;
        } else if code == 2 {
            self.registers.d = value;
        } else if code == 3 {
            self.registers.e = value;
        } else if code == 4 {
            self.registers.h = value;
        } else if code == 5 {
            self.registers.l = value;
        } else if code == 6 {
            bus.write8(self.hl(), value);
        } else {
            self.registers.a = value;
        }
    }
}


impl Cpu {
    fn op_inc_dec(&mut self, op: u8, bus: &mut Bus) -> (r: StepResult)
        requires
            old(bus).wf(),
        ensures
            (state(*final(self), final(bus)@), r) == state(*old(self), old(bus)@).op_inc_dec(op),
            final(bus).wf(),
    {
        let reg = (op >> 3u8) & 7;
        let value = self.read_reg8(reg, bus);
        let c = self.registers.f & FLAG_C != 0;
        let updated = if op & 7 == 4 {
            let result = value.wrapping_add(1);
            self.update_flags(result == 0, false, (value & 0x0F) == 0x0F, c);
            result
        } else {
            let result = value.wrapping_sub(1);
            self.update_flags(result == 0, true, (value & 0x0F) == 0x00, c);
            result
        };
        self.write_reg8(reg, updated, bus);
        StepResult::new(if reg == 6 { 12 } else { 4 }, false)
    }

    fn op_ld_imm8(&mut self, op: u8, bus: &mut Bus) -> (r: StepResult)
        requires
            old(bus).wf(),
        ensures
            (state(*final(self), final(bus)@), r) == state(*old(self), old(bus)@).op_ld_imm8(op),
            final(bus).wf(),
    {
        let n = self.fetch8(bus);
        let reg = (op >> 3u8) & 7;
        self.write_reg8(reg, n, bus);
        StepResult::new(if reg == 6 { 12 } else { 8 }, false)
    }

    fn op_acc(&mut self, op: u8, bus: &Bus) -> (r: StepResult)
        ensures
            (state(*final(self), bus@), r) == state(*old(self), bus@).op_acc(op),
    {
        if op == 0x27 {
            let a = self.registers.a;
            let mut carry = self.registers.f & FLAG_C != 0;
            let mut adjust: u8 = if self.registers.f & FLAG_H != 0 || (a & 0x0F) > 9 { 0x06 } else { 0 };
            if carry || a > 0x99 {
                adjust = adjust | 0x60;
                carry = true;
            }
            let result = if self.registers.f & FLAG_N != 0 { a.wrapping_sub(adjust) } else { a.wrapping_add(adjust) };
            self.registers.a = result;
            self.set_flag(FLAG_Z, result == 0);
            self.set_flag(FLAG_H, false);
            self.set_flag(FLAG_C, carry);
        } else if op == 0x2F {
            self.registers.a = !self.registers.a;
            self.set_flag(FLAG_N, true);
            self.set_flag(FLAG_H, true);
        } else if op == 0x07 {
            let a = self.registers.a;
            self.registers.a = (a << 1u8) | (a >> 7u8);
            self.set_flag(FLAG_Z, false);
            self.set_flag(FLAG_N, false);
            self.set_flag(FLAG_H, false);
            self.set_flag(FLAG_C, a & 0x80 != 0);
        } else if op == 0x0F {
            let a = self.registers.a;
            self.registers.a = (a >> 1u8) | (a << 7u8);
            self.set_flag(FLAG_Z, false);
            self.set_flag(FLAG_N, false);
            self.set_flag(FLAG_H, false);
            self.set_flag(FLAG_C, a & 0x01 != 0);
        } else if op == 0x37 {
            self.set_flag(FLAG_N, false);
            self.set_flag(FLAG_H, false);
            self.set_flag(FLAG_C, true);
        } else {
            let c = self.registers.f & FLAG_C == 0;
            self.set_flag(FLAG_N, false);
            self.set_flag(FLAG_H, false);
            self.set_flag(FLAG_C, c);
        }
        StepResult::new(4, false)
    }
}


impl Cpu {
    fn op_ld_indirect(&mut self, op: u8, bus: &mut Bus) -> (r: StepResult)
        requires
            old(bus).wf(),
        ensures
            (state(*final(self), final(bus)@), r) == state(*old(self), old(bus)@).op_ld_indirect(op),
            final(bus).wf(),
    {
        if op == 0x02 {
            bus.write8(self.bc(), self.registers.a);
        } else if op == 0x12 {
            bus.write8(self.de(), self.registers.a);
        } else if op == 0x22 {
            bus.write8(self.hl(), self.registers.a);
            self.set_hl(self.hl().wrapping_add(1));
        } else if op == 0x32 {
            bus.write8(self.hl(), self.registers.a);
            self.set_hl(self.hl().wrapping_sub(1));
        } else if op == 0x0A {
            self.registers.a = bus.read8(self.bc());
        } else if op == 0x1A {
            self.registers.a = bus.read8(self.de());
        } else if op == 0x2A {
            let hl = self.hl();
            self.registers.a = bus.read8(hl);
            self.set_hl(hl.wrapping_add(1));
        } else {
            let hl = self.hl();
            self.registers.a = bus.read8(hl);
            self.set_hl(hl.wrapping_sub(1));
        }
        StepResult::new(8, false)
    }

    fn op_reg16(&mut self, op: u8, bus: &mut Bus) -> (r: StepResult)
        requires
            old(bus).wf(),
        ensures
            (state(*final(self), final(bus)@), r) == state(*old(self), old(bus)@).op_reg16(op),
            final(bus).wf(),
    {
        if op == 0x01 || op == 0x11 || op == 0x21 || op == 0x31 {
            let v = self.fetch16(bus);
            if op == 0x01 {
                self.set_bc(v);
            } else if op == 0x11 {
                self.set_de(v);
            } else if op == 0x21 {
                self.set_hl(v);
            } else {
                self.registers.sp = v;
            }
            StepResult::new(12, false)
        } else if op == 0x03 {
            self.set_bc(self.bc().wrapping_add(1));
            StepResult::new(8, false)
        } else if op == 0x13 {
            self.set_de(self.de().wrapping_add(1));
            StepResult::new(8, false)
        } else if op == 0x23 {
            self.set_hl(self.hl().wrapping_add(1));
            StepResult::new(8, false)
        } else if op == 0x33 {
            self.registers.sp = self.registers.sp.wrapping_add(1);
            StepResult::new(8, false)
        } else if op == 0x0B {
            self.set_bc(self.bc().wrapping_sub(1));
            StepResult::new(8, false)
        } else if op == 0x1B {
            self.set_de(self.de().wrapping_sub(1));
            StepResult::new(8, false)
        } else if op == 0x2B {
            self.set_hl(self.hl().wrapping_sub(1));
            StepResult::new(8, false)
        } else if op == 0x3B {
            self.registers.sp = self.registers.sp.wrapping_sub(1);
            StepResult::new(8, false)
        } else if op == 0x09 || op == 0x19 || op == 0x29 || op == 0x39 {
            let value = if op == 0x09 {
                self.bc()
            } else if op == 0x19 {
                self.de()
            } else if op == 0x29 {
                self.hl()
            } else {
                self.registers.sp
            };
            self.add_hl(value);
            StepResult::new(8, false)
        } else {
            let address = self.fetch16(bus);
            let sp = self.registers.sp;
            bus.write8(address, sp as u8);
            bus.write8(address.wrapping_add(1), (sp >> 8u16) as u8);
            StepResult::new(20, false)
        }
    }

    fn add_hl(&mut self, value: u16)
        ensures
            *final(self) == (Cpu { registers: old(self).registers.add_hl(value), ..*old(self) }),
    {
        let hl = self.hl();
        let result = hl.wrapping_add(value);
        proof {
            crate::bits::lemma_and_le_u16(hl, 0x0FFF);
            crate::bits::lemma_and_le_u16(value, 0x0FFF);
        }
        let half = (hl & 0x0FFF) + (value & 0x0FFF) > 0x0FFF;
        let carry = hl as u32 + value as u32 > 0xFFFF;
        self.registers.f = self.registers.f & !(FLAG_N | FLAG_H | FLAG_C);
        self.set_flag(FLAG_H, half);
        self.set_flag(FLAG_C, carry);
        self.set_hl(result);
    }

    fn condition(&self, cc: u8) -> (b: bool)
        ensures
            b == self.registers.condition(cc),
    {
        if cc == 0 {
            self.registers.f & FLAG_Z == 0
        } else if cc == 1 {
            self.registers.f & FLAG_Z != 0
        } else if cc == 2 {
            self.registers.f & FLAG_C == 0
        } else {
            self.registers.f & FLAG_C != 0
        }
    }

    fn op_jr(&mut self, op: u8, bus: &Bus) -> (r: StepResult)
        requires
            bus.wf(),
        ensures
            (state(*final(self), bus@), r) == state(*old(self), bus@).op_jr(op),
    {
        let offset = self.fetch8(bus);
        if op == 0x18 || self.condition((op >> 3u8) & 3) {
            self.registers.pc = self.registers.pc.wrapping_add(sign_extend(offset));
            StepResult::new(12, false)
        } else {
            StepResult::new(8, false)
        }
    }

    fn block0(&mut self, op: u8, bus: &mut Bus) -> (r: StepResult)
        requires
            old(bus).wf(),
            op < 0x40,
            !unimplemented_opcode(op),
        ensures
            (state(*final(self), final(bus)@), r) == state(*old(self), old(bus)@).block0(op),
            final(bus).wf(),
    {
        if op == 0x00 {
            StepResult::new(4, false)
        } else if op & 7 == 4 || op & 7 == 5 {
            self.op_inc_dec(op, bus)
        } else if op & 7 == 6 {
            self.op_ld_imm8(op, bus)
        } else if op == 0x27 || op == 0x2F || op == 0x07 || op == 0x0F || op == 0x37 || op == 0x3F {
            self.op_acc(op, bus)
        } else if op & 7 == 2 {
            self.op_ld_indirect(op, bus)
        } else if op == 0x18 || op == 0x20 || op == 0x28 || op == 0x30 || op == 0x38 {
            self.op_jr(op, bus)
        } else {
            self.op_reg16(op, bus)
        }
    }

    fn op_ld_r_r(&mut self, op: u8, bus: &mut Bus) -> (r: StepResult)
        requires
            old(bus).wf(),
            0x40 <= op < 0x80,
        ensures
            (state(*final(self), final(bus)@), r) == state(*old(self), old(bus)@).op_ld_r_r(op),
            final(bus).wf(),
    {
        let destination = (op - 0x40) >> 3u8;
        let source = op & 0x07;
        let value = self.read_reg8(source, bus);
        self.write_reg8(destination, value, bus);
        StepResult::new(if destination == 6 || source == 6 { 8 } else { 4 }, false)
    }

    fn op_alu_r(&mut self, op: u8, bus: &Bus) -> (r: StepResult)
        requires
            bus.wf(),
        ensures
            (state(*final(self), bus@), r) == state(*old(self), bus@).op_alu_r(op),
    {
        let value = self.read_reg8(op & 0x07, bus);
        self.alu((op >> 3u8) & 7, value);
        StepResult::new(4, false)
    }
}

/// Sign-extends an 8-bit offset to 16 bits.
fn sign_extend(b: u8) -> (r: u16)
    ensures
        r == sext8(b),
{
    if b >= 0x80 {
        (b as u16) | 0xFF00
    } else {
        b as u16
    }
}


impl Cpu {
    fn op_flow(&mut self, op: u8, bus: &mut Bus) -> (r: StepResult)
        requires
            old(bus).wf(),
        ensures
            (state(*final(self), final(bus)@), r) == state(*old(self), old(bus)@).op_flow(op),
            final(bus).wf(),
    {
        let cc = (op >> 3u8) & 3;
        if op == 0xC3 {
            let address = self.fetch16(bus);
            self.registers.pc = address;
            StepResult::new(16, false)
        } else if op == 0xC2 || op == 0xCA || op == 0xD2 || op == 0xDA {
            let taken = self.condition(cc);
            let address = self.fetch16(bus);
            if taken {
                self.registers.pc = address;
                StepResult::new(16, false)
            } else {
                StepResult::new(12, false)
            }
        } else if op == 0xCD || op == 0xC4 || op == 0xCC || op == 0xD4 || op == 0xDC {
            let taken = op == 0xCD || self.condition(cc);
            let address = self.fetch16(bus);
            if taken {
                let return_address = self.registers.pc;
                self.push16(return_address, bus);
                self.registers.pc = address;
                StepResult::new(24, false)
            } else {
                StepResult::new(12, false)
            }
        } else if op == 0xC9 || op == 0xD9 {
            let v = self.pop16(bus);
            self.registers.pc = v;
            if op == 0xD9 {
                self.ime = true;
            }
            StepResult::new(16, false)
        } else if op == 0xC0 || op == 0xC8 || op == 0xD0 || op == 0xD8 {
            if self.condition(cc) {
                let v = self.pop16(bus);
                self.registers.pc = v;
                StepResult::new(20, false)
            } else {
                StepResult::new(8, false)
            }
        } else if op & 0x0F == 0x05 {
            let value = if op == 0xC5 {
                self.bc()
            } else if op == 0xD5 {
                self.de()
            } else if op == 0xE5 {
                self.hl()
            } else {
                ((self.registers.a as u16) << 8u16) | ((self.registers.f & 0xF0) as u16)
            };
            self.push16(value, bus);
            StepResult::new(16, false)
        } else if op & 0x0F == 0x01 {
            let value = self.pop16(bus);
            if op == 0xC1 {
                self.set_bc(value);
            } else if op == 0xD1 {
                self.set_de(value);
            } else if op == 0xE1 {
                self.set_hl(value);
            } else {
                self.registers.a = (value >> 8u16) as u8;
                self.registers.f = (value as u8) & 0xF0;
            }
            StepResult::new(12, false)
        } else {
            let pc = self.registers.pc;
            self.push16(pc, bus);
            self.registers.pc = (op & 0x38) as u16;
            StepResult::new(16, false)
        }
    }

    fn op_data3(&mut self, op: u8, bus: &mut Bus) -> (r: StepResult)
        requires
            old(bus).wf(),
        ensures
            (state(*final(self), final(bus)@), r) == state(*old(self), old(bus)@).op_data3(op),
            final(bus).wf(),
    {
        if op & 7 == 6 {
            let value = self.fetch8(bus);
            self.alu((op >> 3u8) & 7, value);
            StepResult::new(8, false)
        } else if op == 0xE0 {
            let a = self.registers.a;
            let offset = self.fetch8(bus);
            bus.write8(0xFF00 + offset as u16, a);
            StepResult::new(12, false)
        } else if op == 0xF0 {
            let offset = self.fetch8(bus);
            self.registers.a = bus.read8(0xFF00 + offset as u16);
            StepResult::new(12, false)
        } else if op == 0xE2 {
            bus.write8(0xFF00 + self.registers.c as u16, self.registers.a);
            StepResult::new(8, false)
        } else if op == 0xF2 {
            self.registers.a = bus.read8(0xFF00 + self.registers.c as u16);
            StepResult::new(8, false)
        } else if op == 0xEA {
            let a = self.registers.a;
            let address = self.fetch16(bus);
            bus.write8(address, a);
            StepResult::new(16, false)
        } else if op == 0xFA {
            let address = self.fetch16(bus);
            self.registers.a = bus.read8(address);
            StepResult::new(16, false)
        } else if op == 0xF3 {
            self.ime = false;
            self.ime_pending = false;
            StepResult::new(4, false)
        } else if op == 0xFB {
            self.ime_pending = true;
            StepResult::new(4, false)
        } else if op == 0xE8 || op == 0xF8 {
            let offset = self.fetch8(bus);
            let sp = self.registers.sp;
            let value = sign_extend(offset);
            let result = sp.wrapping_add(value);
            proof {
                crate::bits::lemma_and_le_u16(sp, 0x0F);
                crate::bits::lemma_and_le_u16(value, 0x0F);
                crate::bits::lemma_and_le_u16(sp, 0xFF);
                crate::bits::lemma_and_le_u16(value, 0xFF);
            }
            let half = (sp & 0x0F) + (value & 0x0F) > 0x0F;
            let carry = (sp & 0xFF) + (value & 0xFF) > 0xFF;
            self.registers.f = 0;
            self.set_flag(FLAG_H, half);
            self.set_flag(FLAG_C, carry);
            if op == 0xE8 {
                self.registers.sp = result;
                StepResult::new(16, false)
            } else {
                self.set_hl(result);
                StepResult::new(12, false)
            }
        } else if op == 0xF9 {
            self.registers.sp = self.hl();
            StepResult::new(8, false)
        } else {
            self.registers.pc = self.hl();
            StepResult::new(4, false)
        }
    }

    fn execute_cb(&mut self, opcode: u8, bus: &mut Bus) -> (r: StepResult)
        requires
            old(bus).wf(),
        ensures
            (state(*final(self), final(bus)@), r) == state(*old(self), old(bus)@).execute_cb(opcode),
            final(bus).wf(),
    {
        let reg = opcode & 0x07;
        let value = self.read_reg8(reg, bus);
        let slow: u32 = if reg == 6 { 16 } else { 8 };
        let bit = (opcode >> 3u8) & 7;
        proof { lemma_and_le_u8(opcode >> 3u8, 7); }
        if opcode >= 0x40 && opcode < 0x80 {
            let bit_set = value & (1u8 << bit) != 0;
            self.set_flag(FLAG_Z, !bit_set);
            self.set_flag(FLAG_N, false);
            self.set_flag(FLAG_H, true);
            StepResult::new(if reg == 6 { 12 } else { 8 }, false)
        } else if opcode >= 0x80 && opcode < 0xC0 {
            self.write_reg8(reg, value & !(1u8 << bit), bus);
            StepResult::new(slow, false)
        } else if opcode >= 0xC0 {
            self.write_reg8(reg, value | (1u8 << bit), bus);
            StepResult::new(slow, false)
        } else {
            let cin = self.registers.f & FLAG_C != 0;
            let (result, carry): (u8, bool) = if opcode < 0x08 {
                ((value << 1u8) | (value >> 7u8), value & 0x80 != 0)
            } else if opcode < 0x10 {
                ((value >> 1u8) | (value << 7u8), value & 0x01 != 0)
            } else if opcode < 0x18 {
                ((value << 1u8) | (if cin { 1u8 } else { 0u8 }), value & 0x80 != 0)
            } else if opcode < 0x20 {
                ((value >> 1u8) | (if cin { 0x80u8 } else { 0u8 }), value & 0x01 != 0)
            } else if opcode < 0x28 {
                (value << 1u8, value & 0x80 != 0)
            } else if opcode < 0x30 {
                ((value >> 1u8) | (value & 0x80), value & 0x01 != 0)
            } else if opcode < 0x38 {
                ((value >> 4u8) | (value << 4u8), false)
            } else {
                (value >> 1u8, value & 0x01 != 0)
            };
            self.write_reg8(reg, result, bus);
            self.update_flags(result == 0, false, false, carry);
            StepResult::new(slow, false)
        }
    }

    /// Executes the instruction with opcode `opcode`, already fetched from `address`.
    fn execute(&mut self, opcode: u8, address: u16, bus: &mut Bus) -> (r: Result<StepResult, CpuError>)
        requires
            old(bus).wf(),
        ensures
            (state(*final(self), final(bus)@), r) == state(*old(self), old(bus)@).execute(opcode, address),
            final(bus).wf(),
    {
        if opcode == 0x10 || opcode == 0x17 || opcode == 0x1F || opcode == 0xD3 || opcode == 0xDB || opcode == 0xDD
            || opcode == 0xE3 || opcode == 0xE4 || opcode == 0xEB || opcode == 0xEC || opcode == 0xED || opcode == 0xF4
            || opcode == 0xFC || opcode == 0xFD {
            return Err(CpuError::UnimplementedOpcode { opcode, address });
        }
        let r = if opcode < 0x40 {
            self.block0(opcode, bus)
        } else if opcode == 0x76 {
            self.halted = true;
            StepResult::new(4, true)
        } else if opcode < 0x80 {
            self.op_ld_r_r(opcode, bus)
        } else if opcode < 0xC0 {
            self.op_alu_r(opcode, bus)
        } else if opcode == 0xCB {
            let cb_opcode = self.fetch8(bus);
            self.execute_cb(cb_opcode, bus)
        } else if opcode & 7 == 6 || opcode == 0xE0 || opcode == 0xF0 || opcode == 0xE2 || opcode == 0xF2
            || opcode == 0xEA || opcode == 0xFA || opcode == 0xF3 || opcode == 0xFB || opcode == 0xE8
            || opcode == 0xF8 || opcode == 0xF9 || opcode == 0xE9 {
            self.op_data3(opcode, bus)
        } else {
            self.op_flow(opcode, bus)
        };
        Ok(r)
    }

    fn pending_interrupts(&self, bus: &Bus) -> (v: u8)
        requires
            bus.wf(),
        ensures
            v == state(*self, bus@).pending_interrupts(),
    {
        let interrupt_enable = bus.read8(0xFFFF);
        let interrupt_flags = bus.read8(0xFF0F);
        interrupt_enable & interrupt_flags
    }

    fn service_interrupt(&mut self, bus: &mut Bus) -> (r: Option<StepResult>)
        requires
            old(bus).wf(),
        ensures
            final(bus).wf(),
            match state(*old(self), old(bus)@).service_interrupt() {
                Some(s) => r == Some(StepResult { cycles: 20, halted: false }) && state(*final(self), final(bus)@) == s,
                None => r is None && *final(self) == *old(self) && final(bus)@ == old(bus)@,
            },
    {
        let active = self.pending_interrupts(bus);
        if active == 0 || !self.ime {
            return None;
        }
        let (flag, vector): (u8, u16) = if active & 0x01 != 0 {
            (0x01, 0x40)
        } else if active & 0x02 != 0 {
            (0x02, 0x48)
        } else if active & 0x04 != 0 {
            (0x04, 0x50)
        } else if active & 0x08 != 0 {
            (0x08, 0x58)
        } else if active & 0x10 != 0 {
            (0x10, 0x60)
        } else {
            return None;
        };
        self.halted = false;
        self.ime = false;
        let pc = self.registers.pc;
        self.push16(pc, bus);
        let current_if = bus.read8(0xFF0F);
        bus.write8(0xFF0F, current_if & !flag);
        self.registers.pc = vector;
        Some(StepResult::new(20, false))
    }

    /// Executes one step: dispatches a pending interrupt, stays halted while nothing is
    /// pending, or fetches and executes the next instruction.
    pub fn step(&mut self, bus: &mut Bus) -> (r: Result<StepResult, CpuError>)
        requires
            old(bus).wf(),
        ensures
            (state(*final(self), final(bus)@), r) == state(*old(self), old(bus)@).step(),
            final(bus).wf(),
    {
        if let Some(interrupt_step) = self.service_interrupt(bus) {
            return Ok(interrupt_step);
        }
        if self.halted {
            if self.pending_interrupts(bus) != 0 {
                self.halted = false;
            } else {
                return Ok(StepResult::new(4, true));
            }
        }
        let enable = self.ime_pending;
        self.ime_pending = false;
        let instruction_address = self.registers.pc;
        let opcode = self.fetch8(bus);
        let r = self.execute(opcode, instruction_address, bus);
        if enable && opcode != 0xF3 {
            self.ime = true;
        }
        r
    }
}

/// The low four bits of F, which no flag uses, are clear.
pub open spec fn flags_clean(r: Registers) -> bool {
    r.f & 0x0F == 0
}

/// Setting or clearing flag bits in the high nibble, and masking with the high nibble,
/// leave the low nibble of a byte clear; setting or clearing the carry bit is seen in it.
proof fn lemma_clean_bits()
    by (bit_vector)
    ensures
        forall|f: u8, m: u8| f & 0x0F == 0 && m & 0x0F == 0 ==> #[trigger] (f | m) & 0x0F == 0,
        forall|f: u8, m: u8| f & 0x0F == 0 ==> #[trigger] (f & !m) & 0x0F == 0,
        forall|f: u8| #[trigger] (f & 0xF0) & 0x0F == 0,
        forall|f: u8| #[trigger] (f | 0x10u8) & 0x10u8 != 0,
        forall|f: u8| #[trigger] (f & !0x10u8) & 0x10u8 == 0,
        0u8 & 0x0Fu8 == 0,
        0x80u8 & 0x0Fu8 == 0,
        0x40u8 & 0x0Fu8 == 0,
        0x20u8 & 0x0Fu8 == 0,
        0x10u8 & 0x0Fu8 == 0,
        0xB0u8 & 0x0Fu8 == 0,
{
}

/// After boot F holds Z, H and C, with its low nibble clear.
pub proof fn lemma_boot_flags_clean()
    ensures
        flags_clean(Registers::spec_default()),
{
    lemma_clean_bits();
}

/// Setting or clearing one flag keeps the low nibble of F clear.
proof fn lemma_with_flag_clean(r: Registers, mask: u8, on: bool)
    requires
        flags_clean(r),
        mask == FLAG_Z || mask == FLAG_N || mask == FLAG_H || mask == FLAG_C,
    ensures
        flags_clean(r.with_flag(mask, on)),
{
    lemma_clean_bits();
}

/// Writing all four flags leaves the low nibble of F clear.
proof fn lemma_with_flags_clean(r: Registers, z: bool, n: bool, h: bool, c: bool)
    ensures
        flags_clean(r.with_flags(z, n, h, c)),
{
    lemma_clean_bits();
    let r0 = Registers { f: 0, ..r };
    lemma_with_flag_clean(r0, FLAG_Z, z);
    lemma_with_flag_clean(r0.with_flag(FLAG_Z, z), FLAG_N, n);
    lemma_with_flag_clean(r0.with_flag(FLAG_Z, z).with_flag(FLAG_N, n), FLAG_H, h);
    lemma_with_flag_clean(r0.with_flag(FLAG_Z, z).with_flag(FLAG_N, n).with_flag(FLAG_H, h), FLAG_C, c);
}

/// Every register operation that changes flags leaves the low nibble of F clear.
proof fn lemma_register_ops_clean(r: Registers, op: u8, v: u8, w: u16)
    requires
        flags_clean(r),
    ensures
        flags_clean(r.alu(op, v)),
        flags_clean(r.inc8(v).0),
        flags_clean(r.dec8(v).0),
        flags_clean(r.add_hl(w)),
        flags_clean(r.sp_offset_flags(v)),
        flags_clean(r.daa()),
{
    lemma_clean_bits();
    let a = r.a;
    lemma_with_flags_clean(Registers { a: a.wrapping_add(v), ..r }, a.wrapping_add(v) == 0, false, (a & 0x0F) + (v & 0x0F) > 0x0F, a + v > 0xFF);
    let cv = r.carry_value();
    let rc = a.wrapping_add(v).wrapping_add(cv);
    lemma_with_flags_clean(Registers { a: rc, ..r }, rc == 0, false, (a & 0x0F) + (v & 0x0F) + cv > 0x0F, a + v + cv > 0xFF);
    lemma_with_flags_clean(Registers { a: a.wrapping_sub(v), ..r }, a.wrapping_sub(v) == 0, true, (a & 0x0F) < (v & 0x0F), a < v);
    let rs = a.wrapping_sub(v).wrapping_sub(cv);
    lemma_with_flags_clean(Registers { a: rs, ..r }, rs == 0, true, (a & 0x0F) < (v & 0x0F) + cv, a < v + cv);
    lemma_with_flags_clean(Registers { a: a & v, ..r }, (a & v) == 0, false, true, false);
    lemma_with_flags_clean(Registers { a: a ^ v, ..r }, (a ^ v) == 0, false, false, false);
    lemma_with_flags_clean(Registers { a: a | v, ..r }, (a | v) == 0, false, false, false);
    lemma_with_flags_clean(r, a.wrapping_sub(v) == 0, true, (a & 0x0F) < (v & 0x0F), a < v);
    let i = v.wrapping_add(1);
    lemma_with_flags_clean(r, i == 0, false, (v & 0x0F) == 0x0F, r.flag(FLAG_C));
    let d = v.wrapping_sub(1);
    lemma_with_flags_clean(r, d == 0, true, (v & 0x0F) == 0x00, r.flag(FLAG_C));
    let hl = r.hl();
    let r1 = Registers { f: r.f & !(FLAG_N | FLAG_H | FLAG_C), ..r };
    lemma_with_flag_clean(r1, FLAG_H, (hl & 0x0FFF) + (w & 0x0FFF) > 0x0FFF);
    lemma_with_flag_clean(r1.with_flag(FLAG_H, (hl & 0x0FFF) + (w & 0x0FFF) > 0x0FFF), FLAG_C, hl + w > 0xFFFF);
    let value = sext8(v);
    let sp = r.sp;
    let r2 = Registers { f: 0, ..r };
    lemma_with_flag_clean(r2, FLAG_H, (sp & 0x0F) + (value & 0x0F) > 0x0F);
    lemma_with_flag_clean(r2.with_flag(FLAG_H, (sp & 0x0F) + (value & 0x0F) > 0x0F), FLAG_C, (sp & 0xFF) + (value & 0xFF) > 0xFF);
    let adj1: u8 = if r.flag(FLAG_H) || (a & 0x0F) > 9 { 0x06 } else { 0 };
    let big = r.flag(FLAG_C) || a > 0x99;
    let adjust: u8 = if big { adj1 | 0x60 } else { adj1 };
    let res = if r.flag(FLAG_N) { a.wrapping_sub(adjust) } else { a.wrapping_add(adjust) };
    let r3 = Registers { a: res, ..r };
    lemma_with_flag_clean(r3, FLAG_Z, res == 0);
    lemma_with_flag_clean(r3.with_flag(FLAG_Z, res == 0), FLAG_H, false);
    lemma_with_flag_clean(r3.with_flag(FLAG_Z, res == 0).with_flag(FLAG_H, false), FLAG_C, big);
}

/// The instructions of block 0 leave the low nibble of F clear.
proof fn lemma_block0_clean(s: GbState, op: u8)
    requires
        flags_clean(s.regs()),
    ensures
        flags_clean(s.block0(op).0.regs()),
{
    let r = s.regs();
    let reg = (op >> 3u8) & 7;
    lemma_register_ops_clean(r, 0, s.read_reg8(reg), 0);
    lemma_register_ops_clean(r, 0, 0, r.bc());
    lemma_register_ops_clean(r, 0, 0, r.de());
    lemma_register_ops_clean(r, 0, 0, r.hl());
    lemma_register_ops_clean(r, 0, 0, r.sp);
    let ra = Registers { a: !r.a, ..r };
    lemma_with_flag_clean(ra, FLAG_N, true);
    lemma_with_flag_clean(ra.with_flag(FLAG_N, true), FLAG_H, true);
    let rl = Registers { a: (r.a << 1u8) | (r.a >> 7u8), ..r };
    lemma_with_flag_clean(rl, FLAG_Z, false);
    lemma_with_flag_clean(rl.with_flag(FLAG_Z, false), FLAG_N, false);
    lemma_with_flag_clean(rl.with_flag(FLAG_Z, false).with_flag(FLAG_N, false), FLAG_H, false);
    lemma_with_flag_clean(rl.with_flag(FLAG_Z, false).with_flag(FLAG_N, false).with_flag(FLAG_H, false), FLAG_C, r.a & 0x80 != 0);
    let rr = Registers { a: (r.a >> 1u8) | (r.a << 7u8), ..r };
    lemma_with_flag_clean(rr, FLAG_Z, false);
    lemma_with_flag_clean(rr.with_flag(FLAG_Z, false), FLAG_N, false);
    lemma_with_flag_clean(rr.with_flag(FLAG_Z, false).with_flag(FLAG_N, false), FLAG_H, false);
    lemma_with_flag_clean(rr.with_flag(FLAG_Z, false).with_flag(FLAG_N, false).with_flag(FLAG_H, false), FLAG_C, r.a & 0x01 != 0);
    lemma_with_flag_clean(r, FLAG_N, false);
    lemma_with_flag_clean(r.with_flag(FLAG_N, false), FLAG_H, false);
    lemma_with_flag_clean(r.with_flag(FLAG_N, false).with_flag(FLAG_H, false), FLAG_C, true);
    lemma_with_flag_clean(r.with_flag(FLAG_N, false).with_flag(FLAG_H, false), FLAG_C, !r.flag(FLAG_C));
}

/// The CB-prefixed instructions leave the low nibble of F clear.
proof fn lemma_cb_clean(s: GbState, op: u8)
    requires
        flags_clean(s.regs()),
    ensures
        flags_clean(s.execute_cb(op).0.regs()),
{
    let r = s.regs();
    let v = s.read_reg8(op & 7);
    let bit = (op >> 3u8) & 7;
    let set = v & (1u8 << bit) != 0;
    lemma_with_flag_clean(r, FLAG_Z, !set);
    lemma_with_flag_clean(r.with_flag(FLAG_Z, !set), FLAG_N, false);
    lemma_with_flag_clean(r.with_flag(FLAG_Z, !set).with_flag(FLAG_N, false), FLAG_H, true);
    if !(op >= 0x40) {
        let cin = r.flag(FLAG_C);
        let (res, carry): (u8, bool) = if op < 0x08 {
            ((v << 1u8) | (v >> 7u8), v & 0x80 != 0)
        } else if op < 0x10 {
            ((v >> 1u8) | (v << 7u8), v & 0x01 != 0)
        } else if op < 0x18 {
            ((v << 1u8) | (if cin { 1u8 } else { 0u8 }), v & 0x80 != 0)
        } else if op < 0x20 {
            ((v >> 1u8) | (if cin { 0x80u8 } else { 0u8 }), v & 0x01 != 0)
        } else if op < 0x28 {
            (v << 1u8, v & 0x80 != 0)
        } else if op < 0x30 {
            ((v >> 1u8) | (v & 0x80), v & 0x01 != 0)
        } else if op < 0x38 {
            ((v >> 4u8) | (v << 4u8), false)
        } else {
            (v >> 1u8, v & 0x01 != 0)
        };
        let s1 = s.write_reg8(op & 7, res);
        lemma_with_flags_clean(s1.regs(), res == 0, false, false, carry);
    }
}

/// The instructions of block 3 leave the low nibble of F clear.
proof fn lemma_block3_clean(s: GbState, op: u8)
    requires
        flags_clean(s.regs()),
    ensures
        flags_clean(s.op_data3(op).0.regs()),
        flags_clean(s.op_flow(op).0.regs()),
{
    lemma_clean_bits();
    let (s1, v) = s.fetch8();
    lemma_register_ops_clean(s1.regs(), (op >> 3u8) & 7, v, 0);
}

/// Every instruction leaves the low nibble of F clear.
proof fn lemma_execute_clean(s: GbState, op: u8, address: u16)
    requires
        flags_clean(s.regs()),
    ensures
        flags_clean(s.execute(op, address).0.regs()),
{
    if !unimplemented_opcode(op) {
        if op < 0x40 {
            lemma_block0_clean(s, op);
        } else if op == 0x76 {
        } else if op < 0x80 {
        } else if op < 0xC0 {
            lemma_register_ops_clean(s.regs(), (op >> 3u8) & 7, s.read_reg8(op & 7), 0);
        } else if op == 0xCB {
            let (s1, cb) = s.fetch8();
            lemma_cb_clean(s1, cb);
        } else {
            lemma_block3_clean(s, op);
        }
    }
}

/// F's low nibble, which holds no flag, stays clear through every step of the CPU:
/// an interrupt, a halted cycle or any instruction, POP AF included.
pub proof fn lemma_step_flags_clean(s: GbState)
    requires
        flags_clean(s.regs()),
    ensures
        flags_clean(s.step().0.regs()),
{
    if s.service_interrupt() is None && !(s.cpu.halted && s.pending_interrupts() == 0) {
        let s1 = GbState { cpu: Cpu { halted: false, ime_pending: false, ..s.cpu }, ..s };
        let (s2, op) = s1.fetch8();
        lemma_execute_clean(s2, op, s1.regs().pc);
    }
}

/// The bit facts behind the CB-prefixed instruction laws: how the opcodes encode the
/// operand and the bit, what the rotates, SWAP, SET and RES do to a byte, and that BIT
/// of a set bit leaves Z clear.
proof fn lemma_cb_bits(r: u8, b: u8, v: u8, f: u8)
    by (bit_vector)
    requires
        r < 8,
        b < 8,
    ensures
        (0x00u8 | r) & 7 == r && (0x00u8 | r) < 0x08,
        (0x08u8 | r) & 7 == r && 0x08 <= (0x08u8 | r) < 0x10,
        (0x30u8 | r) & 7 == r && 0x30 <= (0x30u8 | r) < 0x38,
        (0x40u8 | (b << 3u8) | r) & 7 == r && ((0x40u8 | (b << 3u8) | r) >> 3u8) & 7 == b,
        0x40 <= (0x40u8 | (b << 3u8) | r) < 0x80,
        (0x80u8 | (b << 3u8) | r) & 7 == r && ((0x80u8 | (b << 3u8) | r) >> 3u8) & 7 == b,
        0x80 <= (0x80u8 | (b << 3u8) | r) < 0xC0,
        (0xC0u8 | (b << 3u8) | r) & 7 == r && ((0xC0u8 | (b << 3u8) | r) >> 3u8) & 7 == b,
        0xC0 <= (0xC0u8 | (b << 3u8) | r),
        ((((v << 1u8) | (v >> 7u8)) >> 1u8) | (((v << 1u8) | (v >> 7u8)) << 7u8)) == v,
        ((((v >> 4u8) | (v << 4u8)) >> 4u8) | (((v >> 4u8) | (v << 4u8)) << 4u8)) == v,
        (v | (1u8 << b)) & (1u8 << b) != 0,
        (v & !(1u8 << b)) & (1u8 << b) == 0,
        ((((f & !0x80u8) & !0x40u8) | 0x20u8) & 0x80u8) == 0,
{
}

/// Whether (HL) at `hl` reads back what is written there: plain memory, or cartridge
/// RAM that is enabled, not showing the MBC3 clock, and backed by a byte of RAM.
pub open spec fn operand_memory_ok(bus: BusModel, hl: u16) -> bool {
    ||| is_plain_memory(hl)
    ||| (0xA000 <= hl <= 0xBFFF && bus.cart.ram_area_active() && !(bus.cart.kind.is_mbc3() && bus.cart.rtc_selected)
        && 0 <= bus.cart.ram_offset(hl) < bus.cart.ram.len())
}

/// Writing an operand and reading it back gives what was written; for (HL) the address
/// must read back what is written there.
proof fn lemma_operand_write_read(s: GbState, r: u8, v: u8)
    requires
        r < 8,
        r == 6 ==> s.bus.wf() && operand_memory_ok(s.bus, s.regs().hl()),
    ensures
        s.write_reg8(r, v).read_reg8(r) == v,
        r == 6 ==> s.write_reg8(r, v).regs() == s.regs() && s.write_reg8(r, v).bus.wf() && operand_memory_ok(
            s.write_reg8(r, v).bus,
            s.regs().hl(),
        ),
{
    if r == 6 {
        let hl = s.regs().hl();
        if is_plain_memory(hl) {
            lemma_memory_write_read(s.bus, hl, v);
        } else {
            lemma_ram_write_read(s.bus.cart, hl, v);
        }
    }
}

/// Setting the flags keeps every operand.
proof fn lemma_flags_keep_operand(s: GbState, r: u8, f: u8)
    requires
        r < 8,
    ensures
        s.with_regs(Registers { f, ..s.regs() }).read_reg8(r) == s.read_reg8(r),
{
}

proof fn lemma_cb_rotate(s: GbState, r: u8)
    requires
        r < 8,
        r == 6 ==> s.bus.wf() && operand_memory_ok(s.bus, s.regs().hl()),
    ensures
        s.execute_cb(0x00u8 | r).0.execute_cb(0x08u8 | r).0.read_reg8(r) == s.read_reg8(r),
{
    let v = s.read_reg8(r);
    lemma_cb_bits(r, 0, v, 0);
    let rl = (v << 1u8) | (v >> 7u8);
    lemma_operand_write_read(s, r, rl);
    let s1 = s.write_reg8(r, rl);
    let s1f = s1.with_regs(s1.regs().with_flags(rl == 0, false, false, v & 0x80 != 0));
    assert(s.execute_cb(0x00u8 | r).0 == s1f);
    lemma_flags_keep_operand(s1, r, s1.regs().with_flags(rl == 0, false, false, v & 0x80 != 0).f);
    assert(s1.regs().with_flags(rl == 0, false, false, v & 0x80 != 0) == Registers {
        f: s1.regs().with_flags(rl == 0, false, false, v & 0x80 != 0).f,
        ..s1.regs()
    });
    lemma_cb_bits(r, 0, rl, 0);
    let rr = (rl >> 1u8) | (rl << 7u8);
    lemma_operand_write_read(s1f, r, rr);
    let s2 = s1f.write_reg8(r, rr);
    lemma_flags_keep_operand(s2, r, s2.regs().with_flags(rr == 0, false, false, rl & 0x01 != 0).f);
}

proof fn lemma_cb_swap(s: GbState, r: u8)
    requires
        r < 8,
        r == 6 ==> s.bus.wf() && operand_memory_ok(s.bus, s.regs().hl()),
    ensures
        s.execute_cb(0x30u8 | r).0.execute_cb(0x30u8 | r).0.read_reg8(r) == s.read_reg8(r),
{
    let v = s.read_reg8(r);
    lemma_cb_bits(r, 0, v, 0);
    let sw = (v >> 4u8) | (v << 4u8);
    lemma_operand_write_read(s, r, sw);
    let s1 = s.write_reg8(r, sw);
    let s1f = s1.with_regs(s1.regs().with_flags(sw == 0, false, false, false));
    assert(s.execute_cb(0x30u8 | r).0 == s1f);
    lemma_flags_keep_operand(s1, r, s1.regs().with_flags(sw == 0, false, false, false).f);
    lemma_cb_bits(r, 0, sw, 0);
    let sw2 = (sw >> 4u8) | (sw << 4u8);
    lemma_operand_write_read(s1f, r, sw2);
    let s2 = s1f.write_reg8(r, sw2);
    lemma_flags_keep_operand(s2, r, s2.regs().with_flags(sw2 == 0, false, false, false).f);
}

proof fn lemma_cb_set_res(s: GbState, r: u8, b: u8)
    requires
        r < 8,
        b < 8,
        r == 6 ==> s.bus.wf() && operand_memory_ok(s.bus, s.regs().hl()),
    ensures
        s.execute_cb(0xC0u8 | (b << 3u8) | r).0.read_reg8(r) == s.read_reg8(r) | (1u8 << b),
        !s.execute_cb(0xC0u8 | (b << 3u8) | r).0.execute_cb(0x40u8 | (b << 3u8) | r).0.regs().flag(FLAG_Z),
        s.execute_cb(0x80u8 | (b << 3u8) | r).0.read_reg8(r) == s.read_reg8(r) & !(1u8 << b),
        s.execute_cb(0x80u8 | (b << 3u8) | r).0.read_reg8(r) & (1u8 << b) == 0,
{
    let v = s.read_reg8(r);
    let set = v | (1u8 << b);
    lemma_operand_write_read(s, r, set);
    let s1 = s.write_reg8(r, set);
    lemma_cb_bits(r, b, v, s1.regs().f);
    assert(s.execute_cb(0xC0u8 | (b << 3u8) | r).0 == s1);
    let res = v & !(1u8 << b);
    lemma_operand_write_read(s, r, res);
}

/// The CB-prefixed instructions on operand `r` (B, C, D, E, H, L, (HL) in plain memory
/// or enabled cartridge RAM, A) and bit `b`: RRC undoes RLC, SWAP twice changes nothing, SET sets the bit and
/// keeps the others, after which BIT clears Z, and RES clears the bit and keeps the
/// others.
pub proof fn lemma_cb_laws(s: GbState, r: u8, b: u8)
    requires
        r < 8,
        b < 8,
        r == 6 ==> s.bus.wf() && operand_memory_ok(s.bus, s.regs().hl()),
    ensures
        s.execute_cb(0x00u8 | r).0.execute_cb(0x08u8 | r).0.read_reg8(r) == s.read_reg8(r),
        s.execute_cb(0x30u8 | r).0.execute_cb(0x30u8 | r).0.read_reg8(r) == s.read_reg8(r),
        s.execute_cb(0xC0u8 | (b << 3u8) | r).0.read_reg8(r) == s.read_reg8(r) | (1u8 << b),
        !s.execute_cb(0xC0u8 | (b << 3u8) | r).0.execute_cb(0x40u8 | (b << 3u8) | r).0.regs().flag(FLAG_Z),
        s.execute_cb(0x80u8 | (b << 3u8) | r).0.read_reg8(r) == s.read_reg8(r) & !(1u8 << b),
        s.execute_cb(0x80u8 | (b << 3u8) | r).0.read_reg8(r) & (1u8 << b) == 0,
{
    lemma_cb_rotate(s, r);
    lemma_cb_swap(s, r);
    lemma_cb_set_res(s, r, b);
}

/// The step of EI itself: 4 cycles, interrupts still off, the enable pending.
proof fn lemma_ei_step(s: GbState)
    requires
        !s.cpu.ime,
        !s.cpu.ime_pending,
        !s.cpu.halted,
        s.bus.read8(s.regs().pc) == 0xFB,
    ensures
        s.step().1 == Ok::<StepResult, CpuError>(StepResult { cycles: 4, halted: false }),
        !s.step().0.cpu.ime,
        s.step().0.cpu.ime_pending,
        !s.step().0.cpu.halted,
{
    let s0 = GbState { cpu: Cpu { halted: false, ime_pending: false, ..s.cpu }, ..s };
    let (sa, op0) = s0.fetch8();
    assert(op0 == 0xFB);
    assert(!unimplemented_opcode(0xFB));
    assert(0xFBu8 & 7 == 3) by (bit_vector);
    assert(sa.execute(0xFB, s0.regs().pc) == (GbState { cpu: Cpu { ime_pending: true, ..sa.cpu }, ..sa }, Ok::<StepResult, CpuError>(StepResult { cycles: 4, halted: false })));
}

/// The step after EI: with the enable pending and interrupts off, no interrupt is
/// serviced; the next instruction runs, and interrupts are on after it unless it was DI.
#[verifier::rlimit(50)]
proof fn lemma_pending_step(s: GbState)
    requires
        !s.cpu.ime,
        s.cpu.ime_pending,
        !s.cpu.halted,
    ensures
        s.service_interrupt() is None,
        s.step().0.cpu.ime == (s.bus.read8(s.regs().pc) != 0xF3),
{
    let s0 = GbState { cpu: Cpu { halted: false, ime_pending: false, ..s.cpu }, ..s };
    let (sa, op) = s0.fetch8();
    if op == 0xF3 {
        assert(!unimplemented_opcode(0xF3));
        assert(sa.execute(0xF3, s0.regs().pc).0.cpu.ime == false);
    }
}

/// With interrupts on and an enabled interrupt requested, the next step services it: 20
/// cycles, interrupts off afterwards.
pub proof fn lemma_interrupt_taken(s: GbState)
    requires
        s.cpu.ime,
        s.pending_interrupts() & 0x1F != 0,
    ensures
        s.service_interrupt() is Some,
        s.step().1 == Ok::<StepResult, CpuError>(StepResult { cycles: 20, halted: false }),
        !s.step().0.cpu.ime,
{
    lemma_service_some(s);
    let t = s.service_interrupt().unwrap();
    assert(s.step() == (t, Ok::<StepResult, CpuError>(StepResult { cycles: 20, halted: false })));
}

/// With interrupts on and an enabled interrupt requested, one is serviced, which turns
/// interrupts off.
proof fn lemma_service_some(s: GbState)
    requires
        s.cpu.ime,
        s.pending_interrupts() & 0x1F != 0,
    ensures
        s.service_interrupt() is Some,
        !s.service_interrupt().unwrap().cpu.ime,
{
    let active = s.pending_interrupts();
    assert(active & 0x1F != 0 ==> active != 0 && (active & 0x01 != 0 || active & 0x02 != 0 || active & 0x04 != 0
        || active & 0x08 != 0 || active & 0x10 != 0)) by (bit_vector);
}

/// EI enables interrupts one instruction late: from a running CPU with interrupts off,
/// EI takes 4 cycles and leaves them off, no interrupt is serviced on the next step,
/// which runs the following instruction, and after it interrupts are on unless that
/// instruction was DI; an enabled interrupt requested then is serviced on the step after.
pub proof fn lemma_ei_delay(s: GbState)
    requires
        !s.cpu.ime,
        !s.cpu.ime_pending,
        !s.cpu.halted,
        s.bus.read8(s.regs().pc) == 0xFB,
    ensures
        s.step().1 == Ok::<StepResult, CpuError>(StepResult { cycles: 4, halted: false }),
        !s.step().0.cpu.ime,
        s.step().0.service_interrupt() is None,
        s.step().0.step().0.cpu.ime == (s.step().0.bus.read8(s.step().0.regs().pc) != 0xF3),
        s.step().0.step().0.cpu.ime && s.step().0.step().0.pending_interrupts() & 0x1F != 0 ==> s.step().0.step().0.step().1
            == Ok::<StepResult, CpuError>(StepResult { cycles: 20, halted: false }),
{
    lemma_ei_step(s);
    lemma_pending_step(s.step().0);
    let s2 = s.step().0.step().0;
    if s2.cpu.ime && s2.pending_interrupts() & 0x1F != 0 {
        lemma_interrupt_taken(s2);
    }
}

/// ADC adds the carry: ADC A,r (opcodes 0x88-0x8F, whose operand r is B, C, D, E, H, L,
/// (HL) or A) sets A to A + r + 1 when the C flag was set, A + r when it was clear,
/// modulo 256, and sets the C flag exactly when that sum passes 0xFF.
pub proof fn lemma_adc_adds_carry(s: GbState, r: u8, address: u16)
    requires
        r < 8,
    ensures
        ({
            let op = (0x88 + r) as u8;
            let carry_in: int = if s.regs().f & 0x10 != 0 { 1 } else { 0 };
            let sum = s.regs().a + s.read_reg8(r) + carry_in;
            let (s1, res) = s.execute(op, address);
            &&& res is Ok
            &&& s1.regs().a == sum % 256
            &&& (s1.regs().f & 0x10 != 0) == (sum > 0xFF)
        }),
{
    let op = (0x88 + r) as u8;
    crate::bits::lemma_u8_fields(op);
    crate::bits::lemma_u8_fields(17u8);
    assert(op & 7 == r);
    assert((op >> 3u8) & 7 == 1);
    lemma_clean_bits();
}

} // verus!
