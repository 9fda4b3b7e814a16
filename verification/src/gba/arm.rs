//! ARM-state instructions: data processing with the barrel shifter, single loads and
//! stores with an immediate offset, and branches.
use vstd::prelude::*;
use crate::gba::bus::{Bus, GbaBusModel};
use crate::gba::cpu::{
    Cpu, GbaState, ShiftType, add_overflows, add_u32, condition_holds, gba_state, overflowing_add, overflowing_sub,
    shift_result, signed_add_overflows, signed_sub_overflows, sub_overflows, sub_u32, with_nzcv,
};
use crate::gba::regs::{RegsModel, StatusRegister};
use crate::bits::lemma_and_le_u32;

verus! {

/// The shift that bits 5-6 of an instruction select.
pub open spec fn shift_of(bits: u32) -> ShiftType {
    if bits == 0 {
        ShiftType::Lsl
    } else if bits == 1 {
        ShiftType::Lsr
    } else if bits == 2 {
        ShiftType::Asr
    } else {
        ShiftType::Ror
    }
}

/// Operand 2 of a data-processing instruction and the shifter's carry out: an 8-bit
/// immediate rotated right by twice the 4-bit rotate field, or register Rm shifted by an
/// immediate amount or by the low byte of register Rs.
#[verifier::opaque]
pub open spec fn arm_operand2(regs: RegsModel, ins: u32) -> (u32, bool) {
    if ins & 0x0200_0000 != 0 {
        let rot = (((ins >> 8u32) & 0xF) * 2) % 32;
        let val = ins & 0xFF;
        if rot == 0 {
            (val, regs.cpsr.c)
        } else {
            ((val >> rot) | (val << (32 - rot) as u32), val & (1u32 << (rot - 1) as u32) != 0)
        }
    } else {
        let rm_val = regs.get((ins & 0xF) as u8);
        let amount = if ins & 0x10 != 0 { regs.get(((ins >> 8u32) & 0xF) as u8) & 0xFF } else { (ins >> 7u32) & 0x1F };
        shift_result(shift_of((ins >> 5u32) & 3), amount, rm_val, regs.cpsr.c)
    }
}

/// The result, carry and overflow of data-processing opcode `opcode` on `a` and `b`,
/// with the shifter's carry out and the current C and V. Logical operations take the
/// shifter's carry; SUB, CMP and ADD set carry and overflow from the arithmetic;
/// unsupported opcodes give 0 and keep C and V.
pub open spec fn arm_alu(opcode: u8, a: u32, b: u32, carry_out: bool, c: bool, v: bool) -> (u32, bool, bool) {
    if opcode == 0x0 || opcode == 0x8 {
        (a & b, carry_out, v)
    } else if opcode == 0x1 || opcode == 0x9 {
        (a ^ b, carry_out, v)
    } else if opcode == 0x2 || opcode == 0xA {
        (sub_u32(a, b).0, !sub_u32(a, b).1, sub_overflows(a, b))
    } else if opcode == 0x4 {
        (add_u32(a, b).0, add_u32(a, b).1, add_overflows(a, b))
    } else if opcode == 0xC {
        (a | b, carry_out, v)
    } else if opcode == 0xD {
        (b, carry_out, v)
    } else if opcode == 0xE {
        (a & !b, carry_out, v)
    } else {
        (0, c, v)
    }
}

/// The result, carry and overflow of a data-processing instruction. Rn reads as the PC
/// plus 8 when it is R15.
#[verifier::opaque]
pub open spec fn arm_dp_result(regs: RegsModel, ins: u32) -> (u32, bool, bool) {
    let opcode = ((ins >> 21u32) & 0xF) as u8;
    let rn = ((ins >> 16u32) & 0xF) as u8;
    let rn_val = if rn == 15 { regs.r15.wrapping_add(8) } else { regs.get(rn) };
    let (op2, carry_out) = arm_operand2(regs, ins);
    arm_alu(opcode, rn_val, op2, carry_out, regs.cpsr.c, regs.cpsr.v)
}

/// A data-processing instruction: Rd gets the result (but for TST, TEQ and CMP), the
/// flags are set when bit 20 is, and writing R15 costs 3 cycles instead of 1.
pub open spec fn arm_data_processing(regs: RegsModel, ins: u32) -> (RegsModel, u32) {
    let opcode = ((ins >> 21u32) & 0xF) as u8;
    let rd = ((ins >> 12u32) & 0xF) as u8;
    let (result, carry, overflow) = arm_dp_result(regs, ins);
    let r1 = if opcode == 0x8 || opcode == 0x9 || opcode == 0xA { regs } else { regs.set(rd, result) };
    let r2 = if ins & 0x0010_0000 != 0 { RegsModel { cpsr: with_nzcv(r1.cpsr, result, carry, overflow), ..r1 } } else { r1 };
    (r2, if rd == 15 { 3 } else { 1 })
}

/// A branch: PC plus 8 plus the sign-extended 24-bit word offset; with bit 24 the link
/// register gets the address of the next instruction. Costs 3 cycles.
pub open spec fn arm_branch(regs: RegsModel, ins: u32) -> (RegsModel, u32) {
    let raw = ins & 0x00FF_FFFF;
    let offset = if raw & 0x0080_0000 != 0 { raw | 0xFF00_0000 } else { raw };
    let target = regs.r15.wrapping_add(8).wrapping_add(offset << 2u32);
    let r1 = if ins & 0x0100_0000 != 0 { regs.set(14, regs.r15.wrapping_add(4)) } else { regs };
    (r1.set(15, target), 3)
}

/// The address a load or store with an immediate offset uses, the base (R15 reads as
/// the PC plus 8), and the written-back base.
pub open spec fn ldr_str_addresses(regs: RegsModel, ins: u32) -> (u32, u32, u32) {
    let rn = ((ins >> 16u32) & 0xF) as u8;
    let offset = ins & 0xFFF;
    let rn_val = if rn == 15 { regs.r15.wrapping_add(8) } else { regs.get(rn) };
    let calc = if ins & 0x0080_0000 != 0 { offset } else { 0u32.wrapping_sub(offset) };
    let target = if ins & 0x0100_0000 != 0 { rn_val.wrapping_add(calc) } else { rn_val };
    (target, rn_val, rn_val.wrapping_add(calc))
}

/// A load or store with an immediate offset: a byte or word moves between Rd and memory
/// at the pre- or post-indexed address, then the base is written back when
/// post-indexed or when bit 21 asks. Loads cost 2 cycles, 4 into R15; stores 1. `None`
/// where a store starts DMA that does not end.
pub open spec fn arm_ldr_str(s: GbaState, ins: u32) -> Option<(GbaState, u32)> {
    let regs = s.regs;
    let rn = ((ins >> 16u32) & 0xF) as u8;
    let rd = ((ins >> 12u32) & 0xF) as u8;
    let is_byte = ins & 0x0040_0000 != 0;
    let (target, rn_val, next_base) = ldr_str_addresses(regs, ins);
    let wb = ins & 0x0100_0000 == 0 || ins & 0x0020_0000 != 0;
    if ins & 0x0010_0000 != 0 {
        let data = if is_byte { s.bus.read_byte(target) as u32 } else { s.bus.read_word(target) };
        let r1 = regs.set(rd, data);
        let r2 = if wb { r1.set(rn, next_base) } else { r1 };
        Some((GbaState { regs: r2, ..s }, if rd == 15 { 4 } else { 2 }))
    } else {
        let data = regs.get(rd);
        let r2 = if wb { regs.set(rn, next_base) } else { regs };
        if is_byte {
            Some((GbaState { regs: r2, bus: s.bus.write_byte(target, data as u8), ..s }, 1))
        } else if s.bus.word_write_ok(target, data) {
            Some((GbaState { regs: r2, bus: s.bus.after_word_write(target, data), ..s }, 1))
        } else {
            None
        }
    }
}

/// An ARM instruction: skipped in 1 cycle when its condition fails; data processing,
/// immediate-offset loads and stores, and branches run; other classes take 1 cycle and
/// do nothing.
#[verifier::opaque]
pub open spec fn arm_execute(s: GbaState, ins: u32) -> Option<(GbaState, u32)> {
    let op1 = (ins >> 25u32) & 7;
    if !condition_holds(s.regs.cpsr, (ins >> 28u32) as u8) {
        Some((s, 1))
    } else if op1 == 0 || op1 == 1 {
        let (r, c) = arm_data_processing(s.regs, ins);
        Some((GbaState { regs: r, ..s }, c))
    } else if op1 == 2 {
        arm_ldr_str(s, ins)
    } else if op1 == 5 {
        let (r, c) = arm_branch(s.regs, ins);
        Some((GbaState { regs: r, ..s }, c))
    } else {
        Some((s, 1))
    }
}

/// A 4-bit register field is a register number.
proof fn lemma_reg_field(ins: u32, shift: u32)
    requires
        shift < 32,
    ensures
        (ins >> shift) & 0xF <= 15,
{
    lemma_and_le_u32(ins >> shift, 0xF);
}

/// The result, carry and overflow of a data-processing opcode.
fn alu(opcode: u8, a: u32, b: u32, carry_out: bool, c: bool, v: bool) -> (r: (u32, bool, bool))
    ensures
        r == arm_alu(opcode, a, b, carry_out, c, v),
{
    reveal(arm_alu);
    if opcode == 0x0 || opcode == 0x8 {
        (a & b, carry_out, v)
    } else if opcode == 0x1 || opcode == 0x9 {
        (a ^ b, carry_out, v)
    } else if opcode == 0x2 || opcode == 0xA {
        let (res, borrow) = overflowing_sub(a, b);
        (res, !borrow, signed_sub_overflows(a, b))
    } else if opcode == 0x4 {
        let (res, carry) = overflowing_add(a, b);
        (res, carry, signed_add_overflows(a, b))
    } else if opcode == 0xC {
        (a | b, carry_out, v)
    } else if opcode == 0xD {
        (b, carry_out, v)
    } else if opcode == 0xE {
        (a & !b, carry_out, v)
    } else {
        (0, c, v)
    }
}

impl Cpu {
    /// Operand 2 of a data-processing instruction and the shifter's carry out.
    fn arm_operand2(&self, ins: u32) -> (r: (u32, bool))
        ensures
            r == arm_operand2(self.registers@, ins),
    {
        reveal(arm_operand2);
        if ins & 0x0200_0000 != 0 {
            proof { lemma_reg_field(ins, 8); }
            let rot = (((ins >> 8u32) & 0xF) * 2) % 32;
            let val = ins & 0xFF;
            if rot == 0 {
                (val, self.registers.cpsr.c)
            } else {
                ((val >> rot) | (val << (32 - rot)), val & (1u32 << (rot - 1)) != 0)
            }
        } else {
            proof {
                lemma_and_le_u32(ins, 0xF);
                lemma_reg_field(ins, 8);
            }
            let rm_val = self.registers.get((ins & 0xF) as u8);
            let amount = if ins & 0x10 != 0 {
                self.registers.get(((ins >> 8u32) & 0xF) as u8) & 0xFF
            } else {
                (ins >> 7u32) & 0x1F
            };
            let bits = (ins >> 5u32) & 3;
            let shift_t = if bits == 0 {
                ShiftType::Lsl
            } else if bits == 1 {
                ShiftType::Lsr
            } else if bits == 2 {
                ShiftType::Asr
            } else {
                ShiftType::Ror
            };
            self.barrel_shift(shift_t, amount, rm_val, self.registers.cpsr.c)
        }
    }

    /// The result, carry and overflow of a data-processing instruction.
    fn arm_dp_result(&self, ins: u32) -> (r: (u32, bool, bool))
        ensures
            r == arm_dp_result(self.registers@, ins),
    {
        reveal(arm_dp_result);
        proof { lemma_reg_field(ins, 16); }
        let opcode = ((ins >> 21u32) & 0xF) as u8;
        let rn = ((ins >> 16u32) & 0xF) as u8;
        let rn_val = if rn == 15 { self.registers.r15.wrapping_add(8) } else { self.registers.get(rn) };
        let (op2, carry_out) = self.arm_operand2(ins);
        alu(opcode, rn_val, op2, carry_out, self.registers.cpsr.c, self.registers.cpsr.v)
    }

    /// Runs a data-processing instruction.
    fn execute_arm_data_processing(&mut self, ins: u32) -> (cycles: u32)
        ensures
            (final(self).registers@, cycles) == arm_data_processing(old(self).registers@, ins),
            final(self).halted == old(self).halted,
    {
        proof { lemma_reg_field(ins, 12); }
        let opcode = ((ins >> 21u32) & 0xF) as u8;
        let set_flags = ins & 0x0010_0000 != 0;
        let rd = ((ins >> 12u32) & 0xF) as u8;
        let (result, carry, overflow) = self.arm_dp_result(ins);
        let is_comp = opcode == 0x8 || opcode == 0x9 || opcode == 0xA;
        if !is_comp {
            self.registers.set(rd, result);
        }
        if set_flags {
            let cpsr = self.registers.cpsr;
            self.registers.cpsr = StatusRegister { n: (result & 0x8000_0000) != 0, z: result == 0, c: carry, v: overflow, ..cpsr };
        }
        if rd == 15 {
            3
        } else {
            1
        }
    }

    /// Runs a branch.
    fn execute_arm_branch(&mut self, ins: u32) -> (cycles: u32)
        ensures
            (final(self).registers@, cycles) == arm_branch(old(self).registers@, ins),
            final(self).halted == old(self).halted,
    {
        let link = ins & 0x0100_0000 != 0;
        let mut offset = ins & 0x00FF_FFFF;
        if offset & 0x0080_0000 != 0 {
            offset = offset | 0xFF00_0000;
        }
        let target = self.registers.r15.wrapping_add(8).wrapping_add(offset << 2u32);
        if link {
            let lr = self.registers.r15.wrapping_add(4);
            self.registers.set(14, lr);
        }
        self.registers.set(15, target);
        3
    }

    /// Runs a load or store with an immediate offset.
    fn execute_arm_ldr_str_immediate(&mut self, ins: u32, bus: &mut Bus) -> (cycles: u32)
        requires
            old(bus).wf(),
            arm_ldr_str(gba_state(old(self), old(bus)@), ins) is Some,
        ensures
            final(bus).wf(),
            arm_ldr_str(gba_state(old(self), old(bus)@), ins) == Some((gba_state(final(self), final(bus)@), cycles)),
    {
        proof {
            lemma_reg_field(ins, 16);
            lemma_reg_field(ins, 12);
        }
        let is_load = ins & 0x0010_0000 != 0;
        let writeback = ins & 0x0020_0000 != 0;
        let is_byte = ins & 0x0040_0000 != 0;
        let add_offset = ins & 0x0080_0000 != 0;
        let pre_index = ins & 0x0100_0000 != 0;
        let rn = ((ins >> 16u32) & 0xF) as u8;
        let rd = ((ins >> 12u32) & 0xF) as u8;
        let offset = ins & 0xFFF;
        let rn_val = if rn == 15 { self.registers.r15.wrapping_add(8) } else { self.registers.get(rn) };
        let calculated_offset = if add_offset { offset } else { 0u32.wrapping_sub(offset) };
        let target_addr = if pre_index { rn_val.wrapping_add(calculated_offset) } else { rn_val };
        let mut cycles: u32 = 1;
        if is_load {
            let data = if is_byte { bus.read_byte(target_addr) as u32 } else { bus.read_word(target_addr) };
            self.registers.set(rd, data);
            cycles = cycles + 1;
            if rd == 15 {
                cycles = cycles + 2;
            }
        } else {
            let data = self.registers.get(rd);
            if is_byte {
                bus.write_byte(target_addr, data as u8);
            } else {
                bus.write_word(target_addr, data);
            }
        }
        if !pre_index || writeback {
            let next_base = rn_val.wrapping_add(calculated_offset);
            self.registers.set(rn, next_base);
        }
        cycles
    }
}


impl Cpu {
    /// Decodes and runs an ARM instruction; returns its cycles.
    pub fn execute_arm(&mut self, instruction: u32, bus: &mut Bus) -> (cycles: u32)
        requires
            old(bus).wf(),
            arm_execute(gba_state(old(self), old(bus)@), instruction) is Some,
        ensures
            final(bus).wf(),
            arm_execute(gba_state(old(self), old(bus)@), instruction) == Some((gba_state(final(self), final(bus)@), cycles)),
    {
        reveal(arm_execute);
        let cond = (instruction >> 28u32) as u8;
        if !self.check_condition(cond) {
            return 1;
        }
        let op1 = (instruction >> 25u32) & 7;
        if op1 == 0 || op1 == 1 {
            self.execute_arm_data_processing(instruction)
        } else if op1 == 2 {
            self.execute_arm_ldr_str_immediate(instruction, bus)
        } else if op1 == 5 {
            self.execute_arm_branch(instruction)
        } else {
            1
        }
    }
}

} // verus!
