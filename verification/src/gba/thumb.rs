//! Thumb-state instructions.
use vstd::prelude::*;
use crate::gba::bus::Bus;
use crate::gba::cpu::{
    Cpu, GbaState, ShiftType, add_overflows, add_u32, condition_holds, gba_state, overflowing_add, overflowing_sub,
    shift_result, signed_add_overflows, signed_sub_overflows, sub_overflows, sub_u32, with_nzcv,
};
use crate::gba::hle::hle_swi;
use crate::gba::regs::{RegsModel, StatusRegister};
use crate::bits::lemma_and_le_u16;

verus! {

/// The status register with N and Z set from `result`, C and V kept.
pub open spec fn with_nz(cpsr: StatusRegister, result: u32) -> StatusRegister {
    StatusRegister { n: result & 0x8000_0000 != 0, z: result == 0, ..cpsr }
}

/// The status register with N, Z and C set.
pub open spec fn with_nzc(cpsr: StatusRegister, result: u32, c: bool) -> StatusRegister {
    StatusRegister { n: result & 0x8000_0000 != 0, z: result == 0, c, ..cpsr }
}

/// The registers with CPSR `cpsr`.
pub open spec fn with_cpsr(regs: RegsModel, cpsr: StatusRegister) -> RegsModel {
    RegsModel { cpsr, ..regs }
}

/// Move shifted register (LSL, LSR, ASR by a 5-bit immediate) and add/subtract with a
/// register or a 3-bit immediate; both set the flags. 1 cycle.
#[verifier::opaque]
pub open spec fn thumb_shift_add_sub(regs: RegsModel, ins: u16) -> RegsModel {
    let op = (ins >> 11u16) as u8;
    let rd = (ins & 7) as u8;
    let rs_val = regs.get(((ins >> 3u16) & 7) as u8);
    if op == 3 {
        let offset3 = ((ins >> 6u16) & 7) as u32;
        let val = if ins & 0x400 != 0 { offset3 } else { regs.get(offset3 as u8) };
        if ins & 0x200 != 0 {
            let (res, borrow) = sub_u32(rs_val, val);
            let r1 = regs.set(rd, res);
            with_cpsr(r1, with_nzcv(r1.cpsr, res, !borrow, sub_overflows(rs_val, val)))
        } else {
            let (res, carry) = add_u32(rs_val, val);
            let r1 = regs.set(rd, res);
            with_cpsr(r1, with_nzcv(r1.cpsr, res, carry, add_overflows(rs_val, val)))
        }
    } else if op <= 2 {
        let st = if op == 0 { ShiftType::Lsl } else if op == 1 { ShiftType::Lsr } else { ShiftType::Asr };
        let (res, carry) = shift_result(st, ((ins >> 6u16) & 0x1F) as u32, rs_val, regs.cpsr.c);
        let r1 = regs.set(rd, res);
        with_cpsr(r1, with_nzc(r1.cpsr, res, carry))
    } else {
        regs
    }
}

/// MOV, CMP, ADD or SUB with an 8-bit immediate on R0-R7. 1 cycle.
#[verifier::opaque]
pub open spec fn thumb_immediate_alu(regs: RegsModel, ins: u16) -> RegsModel {
    let op = (ins >> 11u16) & 3;
    let rd = ((ins >> 8u16) & 7) as u8;
    let imm = (ins & 0xFF) as u32;
    let rd_val = regs.get(rd);
    if op == 0 {
        let r1 = regs.set(rd, imm);
        with_cpsr(r1, with_nz(r1.cpsr, imm))
    } else if op == 1 {
        let (res, borrow) = sub_u32(rd_val, imm);
        with_cpsr(regs, with_nzcv(regs.cpsr, res, !borrow, sub_overflows(rd_val, imm)))
    } else if op == 2 {
        let (res, carry) = add_u32(rd_val, imm);
        let r1 = regs.set(rd, res);
        with_cpsr(r1, with_nzcv(r1.cpsr, res, carry, add_overflows(rd_val, imm)))
    } else {
        let (res, borrow) = sub_u32(rd_val, imm);
        let r1 = regs.set(rd, res);
        with_cpsr(r1, with_nzcv(r1.cpsr, res, !borrow, sub_overflows(rd_val, imm)))
    }
}

/// The result, carry and overflow of Thumb ALU operation `opcode` on Rd and Rs, with
/// the current C and V.
pub open spec fn thumb_alu(opcode: u8, a: u32, b: u32, c: bool, v: bool) -> (u32, bool, bool) {
    if opcode == 0x0 || opcode == 0x8 {
        (a & b, c, v)
    } else if opcode == 0x1 {
        (a ^ b, c, v)
    } else if opcode == 0x2 {
        let (r, c2) = shift_result(ShiftType::Lsl, b, a, c);
        (r, c2, v)
    } else if opcode == 0x3 {
        let (r, c2) = shift_result(ShiftType::Lsr, b, a, c);
        (r, c2, v)
    } else if opcode == 0x4 {
        let (r, c2) = shift_result(ShiftType::Asr, b, a, c);
        (r, c2, v)
    } else if opcode == 0x5 {
        let (r1, c1) = add_u32(a, b);
        let (r2, c2) = add_u32(r1, if c { 1u32 } else { 0u32 });
        (r2, c1 || c2, add_overflows(a, b))
    } else if opcode == 0x6 {
        let (r1, c1) = sub_u32(a, b);
        let (r2, c2) = sub_u32(r1, if c { 0u32 } else { 1u32 });
        (r2, !(c1 || c2), sub_overflows(a, b))
    } else if opcode == 0x7 {
        let (r, c2) = shift_result(ShiftType::Ror, b, a, c);
        (r, c2, v)
    } else if opcode == 0x9 {
        (sub_u32(0, b).0, !sub_u32(0, b).1, sub_overflows(0, b))
    } else if opcode == 0xA {
        (sub_u32(a, b).0, !sub_u32(a, b).1, sub_overflows(a, b))
    } else if opcode == 0xC {
        (a | b, c, v)
    } else if opcode == 0xD {
        (a.wrapping_mul(b), false, v)
    } else if opcode == 0xE {
        (a & !b, c, v)
    } else if opcode == 0xF {
        (!b, c, v)
    } else {
        (0, c, v)
    }
}

/// A Thumb ALU operation on R0-R7: Rd gets the result (but for TST and CMP) and all four
/// flags are set. 1 cycle.
#[verifier::opaque]
pub open spec fn thumb_alu_ops(regs: RegsModel, ins: u16) -> RegsModel {
    let opcode = ((ins >> 6u16) & 0xF) as u8;
    let rd = (ins & 7) as u8;
    let (result, carry, overflow) = thumb_alu(
        opcode,
        regs.get(rd),
        regs.get(((ins >> 3u16) & 7) as u8),
        regs.cpsr.c,
        regs.cpsr.v,
    );
    let r1 = if opcode == 0x8 || opcode == 0xA { regs } else { regs.set(rd, result) };
    with_cpsr(r1, with_nzcv(r1.cpsr, result, carry, overflow))
}

/// ADD, CMP, MOV or BX with the high registers. Writing R15, and BX, cost 3 cycles.
#[verifier::opaque]
pub open spec fn thumb_hi_reg_ops(regs: RegsModel, ins: u16) -> (RegsModel, u32) {
    let opcode = (ins >> 8u16) & 3;
    let rs = (((ins >> 3u16) & 7) | (if ins & 0x40 != 0 { 8u16 } else { 0u16 })) as u8;
    let rd = ((ins & 7) | (if ins & 0x80 != 0 { 8u16 } else { 0u16 })) as u8;
    let rd_val = regs.get(rd);
    let rs_val = regs.get(rs);
    let cycles: u32 = if rd == 15 { 3 } else { 1 };
    if opcode == 0 {
        (regs.set(rd, rd_val.wrapping_add(rs_val)), cycles)
    } else if opcode == 1 {
        let res = rd_val.wrapping_sub(rs_val);
        (with_cpsr(regs, with_nzcv(regs.cpsr, res, rd_val >= rs_val, sub_overflows(rd_val, rs_val))), cycles)
    } else if opcode == 2 {
        (regs.set(rd, rs_val), cycles)
    } else {
        let r1 = with_cpsr(regs, StatusRegister { t: rs_val & 1 != 0, ..regs.cpsr });
        (r1.set(15, rs_val & !1u32), 3)
    }
}

/// The address a Thumb load or store with a 5-bit offset uses: Rb plus the offset, in
/// words for word accesses.
pub open spec fn thumb_ls_address(regs: RegsModel, ins: u16) -> u32 {
    let offset = ((ins >> 6u16) & 0x1F) as u32;
    let base = regs.get(((ins >> 3u16) & 7) as u8);
    if ins & 0x400 != 0 { base.wrapping_add(offset) } else { base.wrapping_add(offset << 2u32) }
}

/// A load (2 cycles) or store (1 cycle) of a byte or word at Rb plus a 5-bit offset.
/// `None` where a store starts DMA that does not end.
#[verifier::opaque]
pub open spec fn thumb_load_store(s: GbaState, ins: u16) -> Option<(GbaState, u32)> {
    let rd = (ins & 7) as u8;
    let is_byte = ins & 0x400 != 0;
    let target = thumb_ls_address(s.regs, ins);
    if ins & 0x800 != 0 {
        let data = if is_byte { s.bus.read_byte(target) as u32 } else { s.bus.read_word(target) };
        Some((GbaState { regs: s.regs.set(rd, data), ..s }, 2))
    } else {
        let data = s.regs.get(rd);
        if is_byte {
            Some((GbaState { bus: s.bus.write_byte(target, data as u8), ..s }, 1))
        } else if s.bus.word_write_ok(target, data) {
            Some((GbaState { bus: s.bus.after_word_write(target, data), ..s }, 1))
        } else {
            None
        }
    }
}

/// Rd gets SP, or the PC plus 4, plus an 8-bit word offset. 1 cycle.
#[verifier::opaque]
pub open spec fn thumb_sp_pc_math(regs: RegsModel, ins: u16) -> RegsModel {
    let rd = ((ins >> 8u16) & 7) as u8;
    let imm = ((ins & 0xFF) << 2u16) as u32;
    let base = if ins & 0x800 != 0 { regs.get(13) } else { regs.r15.wrapping_add(4) };
    regs.set(rd, base.wrapping_add(imm))
}

/// A conditional branch by a signed 8-bit halfword offset from the PC plus 4: 3 cycles
/// when taken, 1 when not.
#[verifier::opaque]
pub open spec fn thumb_cond_branch(regs: RegsModel, ins: u16) -> (RegsModel, u32) {
    let raw = (ins & 0xFF) as u32;
    let offset = if raw & 0x80 != 0 { raw | 0xFFFF_FF00 } else { raw };
    if condition_holds(regs.cpsr, ((ins >> 8u16) & 0xF) as u8) {
        (regs.set(15, regs.r15.wrapping_add(4).wrapping_add(offset << 1u32)), 3)
    } else {
        (regs, 1)
    }
}

/// An unconditional branch by a signed 11-bit halfword offset from the PC plus 4. 3 cycles.
pub open spec fn thumb_branch(regs: RegsModel, ins: u16) -> RegsModel {
    let raw = (ins & 0x7FF) as u32;
    let offset = if raw & 0x400 != 0 { raw | 0xFFFF_F800 } else { raw };
    regs.set(15, regs.r15.wrapping_add(4).wrapping_add(offset << 1u32))
}

/// The two halves of a long branch with link: the first puts the PC plus 4 plus the
/// sign-extended high offset in LR; the second branches to LR plus the low offset and
/// leaves the return address, with bit 0 set, in LR. 3 cycles.
#[verifier::opaque]
pub open spec fn thumb_long_branch(regs: RegsModel, ins: u16) -> RegsModel {
    let offset = (ins & 0x7FF) as u32;
    if ins & 0x800 == 0 {
        let v = offset << 12u32;
        let val = if v & 0x0040_0000 != 0 { v | 0xFF80_0000 } else { v };
        regs.set(14, regs.r15.wrapping_add(4).wrapping_add(val))
    } else {
        let target = regs.get(14).wrapping_add(offset << 1u32);
        let next_lr = regs.r15.wrapping_add(2) | 1;
        regs.set(15, target).set(14, next_lr)
    }
}

/// A Thumb instruction, by its top five bits; unsupported ones take 1 cycle and do
/// nothing. `None` where the memory it writes starts DMA that does not end.
#[verifier::opaque]
pub open spec fn thumb_execute(s: GbaState, ins: u16) -> Option<(GbaState, u32)> {
    let op = (ins >> 11u16) as u8;
    let regs = s.regs;
    if op <= 3 {
        Some((GbaState { regs: thumb_shift_add_sub(regs, ins), ..s }, 1))
    } else if op <= 7 {
        Some((GbaState { regs: thumb_immediate_alu(regs, ins), ..s }, 1))
    } else if op == 8 {
        Some((GbaState { regs: thumb_alu_ops(regs, ins), ..s }, 1))
    } else if op == 9 {
        let (r, c) = thumb_hi_reg_ops(regs, ins);
        Some((GbaState { regs: r, ..s }, c))
    } else if op == 10 || op == 11 {
        thumb_load_store(s, ins)
    } else if op == 24 || op == 25 {
        Some((GbaState { regs: thumb_sp_pc_math(regs, ins), ..s }, 1))
    } else if op == 28 {
        let (r, c) = thumb_cond_branch(regs, ins);
        Some((GbaState { regs: r, ..s }, c))
    } else if op == 29 {
        match hle_swi(s, (ins & 0xFF) as u8) {
            Some(s2) => Some((s2, 1)),
            None => None,
        }
    } else if op == 30 {
        Some((GbaState { regs: thumb_branch(regs, ins), ..s }, 3))
    } else if op == 31 {
        Some((GbaState { regs: thumb_long_branch(regs, ins), ..s }, 3))
    } else {
        Some((s, 1))
    }
}


/// A 3-bit register field is a register number.
proof fn lemma_low_reg(ins: u16, shift: u16)
    requires
        shift < 16,
    ensures
        (ins >> shift) & 7 <= 7,
        ins & 7 <= 7,
{
    lemma_and_le_u16(ins >> shift, 7);
    lemma_and_le_u16(ins, 7);
}

/// The result, carry and overflow of a Thumb ALU operation.
fn alu(cpu: &Cpu, opcode: u8, a: u32, b: u32, c: bool, v: bool) -> (r: (u32, bool, bool))
    ensures
        r == thumb_alu(opcode, a, b, c, v),
{
    if opcode == 0x0 || opcode == 0x8 {
        (a & b, c, v)
    } else if opcode == 0x1 {
        (a ^ b, c, v)
    } else if opcode == 0x2 {
        let (r, c2) = cpu.barrel_shift(ShiftType::Lsl, b, a, c);
        (r, c2, v)
    } else if opcode == 0x3 {
        let (r, c2) = cpu.barrel_shift(ShiftType::Lsr, b, a, c);
        (r, c2, v)
    } else if opcode == 0x4 {
        let (r, c2) = cpu.barrel_shift(ShiftType::Asr, b, a, c);
        (r, c2, v)
    } else if opcode == 0x5 {
        let c_val: u32 = if c { 1 } else { 0 };
        let (r1, c1) = overflowing_add(a, b);
        let (r2, c2) = overflowing_add(r1, c_val);
        (r2, c1 || c2, signed_add_overflows(a, b))
    } else if opcode == 0x6 {
        let c_val: u32 = if c { 0 } else { 1 };
        let (r1, c1) = overflowing_sub(a, b);
        let (r2, c2) = overflowing_sub(r1, c_val);
        (r2, !(c1 || c2), signed_sub_overflows(a, b))
    } else if opcode == 0x7 {
        let (r, c2) = cpu.barrel_shift(ShiftType::Ror, b, a, c);
        (r, c2, v)
    } else if opcode == 0x9 {
        let (res, borrow) = overflowing_sub(0, b);
        (res, !borrow, signed_sub_overflows(0, b))
    } else if opcode == 0xA {
        let (res, borrow) = overflowing_sub(a, b);
        (res, !borrow, signed_sub_overflows(a, b))
    } else if opcode == 0xC {
        (a | b, c, v)
    } else if opcode == 0xD {
        (a.wrapping_mul(b), false, v)
    } else if opcode == 0xE {
        (a & !b, c, v)
    } else if opcode == 0xF {
        (!b, c, v)
    } else {
        (0, c, v)
    }
}

/// The destination and source registers of a high-register operation: the 3-bit
/// fields extended by the H1 and H2 bits.
fn hi_regs(ins: u16) -> (r: (u8, u8))
    ensures
        r.0 == ((ins & 7) | (if ins & 0x80 != 0 { 8u16 } else { 0u16 })) as u8,
        r.1 == (((ins >> 3u16) & 7) | (if ins & 0x40 != 0 { 8u16 } else { 0u16 })) as u8,
        r.0 <= 15,
        r.1 <= 15,
{
    let h1 = ins & 0x80 != 0;
    let h2 = ins & 0x40 != 0;
    assert((((ins >> 3u16) & 7) | 8u16) <= 15 && ((ins & 7) | 8u16) <= 15 && (((ins >> 3u16) & 7) | 0u16) <= 15
        && ((ins & 7) | 0u16) <= 15) by (bit_vector);
    let rs = (((ins >> 3u16) & 7) | (if h2 { 8u16 } else { 0u16 })) as u8;
    let rd = ((ins & 7) | (if h1 { 8u16 } else { 0u16 })) as u8;
    (rd, rs)
}

impl Cpu {
    fn set_nzcv(&mut self, result: u32, c: bool, v: bool)
        ensures
            final(self).registers@ == with_cpsr(old(self).registers@, with_nzcv(old(self).registers@.cpsr, result, c, v)),
            final(self).halted == old(self).halted,
    {
        let cpsr = self.registers.cpsr;
        self.registers.cpsr = StatusRegister { n: (result & 0x8000_0000) != 0, z: result == 0, c, v, ..cpsr };
    }

    fn set_nzc(&mut self, result: u32, c: bool)
        ensures
            final(self).registers@ == with_cpsr(old(self).registers@, with_nzc(old(self).registers@.cpsr, result, c)),
            final(self).halted == old(self).halted,
    {
        let cpsr = self.registers.cpsr;
        self.registers.cpsr = StatusRegister { n: (result & 0x8000_0000) != 0, z: result == 0, c, ..cpsr };
    }

    fn execute_thumb_shift_add_sub(&mut self, ins: u16) -> (cycles: u32)
        ensures
            final(self).registers@ == thumb_shift_add_sub(old(self).registers@, ins),
            final(self).halted == old(self).halted,
            cycles == 1,
    {
        reveal(thumb_shift_add_sub);
        proof { lemma_low_reg(ins, 3); lemma_low_reg(ins, 6); }
        let op = (ins >> 11u16) as u8;
        let rd = (ins & 7) as u8;
        let rs = ((ins >> 3u16) & 7) as u8;
        let rs_val = self.registers.get(rs);
        if op == 3 {
            let is_imm = ins & 0x400 != 0;
            let is_sub = ins & 0x200 != 0;
            let offset3 = ((ins >> 6u16) & 7) as u32;
            let val = if is_imm { offset3 } else { self.registers.get(offset3 as u8) };
            if is_sub {
                let (res, c) = overflowing_sub(rs_val, val);
                self.registers.set(rd, res);
                self.set_nzcv(res, !c, signed_sub_overflows(rs_val, val));
            } else {
                let (res, c) = overflowing_add(rs_val, val);
                self.registers.set(rd, res);
                self.set_nzcv(res, c, signed_add_overflows(rs_val, val));
            }
        } else {
            let offset5 = ((ins >> 6u16) & 0x1F) as u32;
            let st = if op == 0 { ShiftType::Lsl } else if op == 1 { ShiftType::Lsr } else { ShiftType::Asr };
            if op <= 2 {
                let (res, carry) = self.barrel_shift(st, offset5, rs_val, self.registers.cpsr.c);
                self.registers.set(rd, res);
                self.set_nzc(res, carry);
            }
        }
        1
    }

    fn execute_thumb_immediate_alu(&mut self, ins: u16) -> (cycles: u32)
        ensures
            final(self).registers@ == thumb_immediate_alu(old(self).registers@, ins),
            final(self).halted == old(self).halted,
            cycles == 1,
    {
        reveal(thumb_immediate_alu);
        proof { lemma_low_reg(ins, 8); }
        let op = (ins >> 11u16) & 3;
        let rd = ((ins >> 8u16) & 7) as u8;
        let imm = (ins & 0xFF) as u32;
        let rd_val = self.registers.get(rd);
        if op == 0 {
            self.registers.set(rd, imm);
            let cpsr = self.registers.cpsr;
            self.registers.cpsr = StatusRegister { n: (imm & 0x8000_0000) != 0, z: imm == 0, ..cpsr };
        } else if op == 1 {
            let (res, c) = overflowing_sub(rd_val, imm);
            self.set_nzcv(res, !c, signed_sub_overflows(rd_val, imm));
        } else if op == 2 {
            let (res, c) = overflowing_add(rd_val, imm);
            self.registers.set(rd, res);
            self.set_nzcv(res, c, signed_add_overflows(rd_val, imm));
        } else {
            let (res, c) = overflowing_sub(rd_val, imm);
            self.registers.set(rd, res);
            self.set_nzcv(res, !c, signed_sub_overflows(rd_val, imm));
        }
        1
    }

    fn execute_thumb_alu_ops(&mut self, ins: u16) -> (cycles: u32)
        ensures
            final(self).registers@ == thumb_alu_ops(old(self).registers@, ins),
            final(self).halted == old(self).halted,
            cycles == 1,
    {
        reveal(thumb_alu_ops);
        proof { lemma_low_reg(ins, 3); }
        let opcode = ((ins >> 6u16) & 0xF) as u8;
        let rs = ((ins >> 3u16) & 7) as u8;
        let rd = (ins & 7) as u8;
        let rd_val = self.registers.get(rd);
        let rs_val = self.registers.get(rs);
        let (result, carry, overflow) = alu(self, opcode, rd_val, rs_val, self.registers.cpsr.c, self.registers.cpsr.v);
        let is_comp = opcode == 0x8 || opcode == 0xA;
        if !is_comp {
            self.registers.set(rd, result);
        }
        self.set_nzcv(result, carry, overflow);
        1
    }

    #[verifier::rlimit(80)]
    fn execute_thumb_hi_reg_ops(&mut self, ins: u16) -> (cycles: u32)
        ensures
            (final(self).registers@, cycles) == thumb_hi_reg_ops(old(self).registers@, ins),
            final(self).halted == old(self).halted,
    {
        reveal(thumb_hi_reg_ops);
        let opcode = (ins >> 8u16) & 3;
        let (rd, rs) = hi_regs(ins);
        let rd_val = self.registers.get(rd);
        let rs_val = self.registers.get(rs);
        if opcode == 0 {
            self.registers.set(rd, rd_val.wrapping_add(rs_val));
        } else if opcode == 1 {
            let res = rd_val.wrapping_sub(rs_val);
            self.set_nzcv(res, rd_val >= rs_val, signed_sub_overflows(rd_val, rs_val));
        } else if opcode == 2 {
            self.registers.set(rd, rs_val);
        } else {
            let cpsr = self.registers.cpsr;
            self.registers.cpsr = StatusRegister { t: (rs_val & 1) != 0, ..cpsr };
            self.registers.set(15, rs_val & !1u32);
            return 3;
        }
        if rd == 15 {
            3
        } else {
            1
        }
    }

    fn execute_thumb_load_store_offset(&mut self, ins: u16, bus: &mut Bus) -> (cycles: u32)
        requires
            old(bus).wf(),
            thumb_load_store(gba_state(old(self), old(bus)@), ins) is Some,
        ensures
            final(bus).wf(),
            thumb_load_store(gba_state(old(self), old(bus)@), ins) == Some((gba_state(final(self), final(bus)@), cycles)),
    {
        reveal(thumb_load_store);
        proof { lemma_low_reg(ins, 3); }
        let is_load = ins & 0x800 != 0;
        let is_byte = ins & 0x400 != 0;
        let offset = ((ins >> 6u16) & 0x1F) as u32;
        let rs = ((ins >> 3u16) & 7) as u8;
        let rd = (ins & 7) as u8;
        let base = self.registers.get(rs);
        let target_addr = if is_byte { base.wrapping_add(offset) } else { base.wrapping_add(offset << 2u32) };
        if is_load {
            let data = if is_byte { bus.read_byte(target_addr) as u32 } else { bus.read_word(target_addr) };
            self.registers.set(rd, data);
            2
        } else {
            let data = self.registers.get(rd);
            if is_byte {
                bus.write_byte(target_addr, data as u8);
            } else {
                bus.write_word(target_addr, data);
            }
            1
        }
    }

    fn execute_thumb_sp_pc_math(&mut self, ins: u16) -> (cycles: u32)
        ensures
            final(self).registers@ == thumb_sp_pc_math(old(self).registers@, ins),
            final(self).halted == old(self).halted,
            cycles == 1,
    {
        reveal(thumb_sp_pc_math);
        proof { lemma_low_reg(ins, 8); }
        let use_sp = ins & 0x800 != 0;
        let rd = ((ins >> 8u16) & 7) as u8;
        proof { crate::bits::lemma_and_le_u16(ins, 0xFF); }
        let imm = ((ins & 0xFF) << 2u16) as u32;
        let base = if use_sp { self.registers.get(13) } else { self.registers.r15.wrapping_add(4) };
        self.registers.set(rd, base.wrapping_add(imm));
        1
    }

    fn execute_thumb_cond_branch(&mut self, ins: u16) -> (cycles: u32)
        ensures
            (final(self).registers@, cycles) == thumb_cond_branch(old(self).registers@, ins),
            final(self).halted == old(self).halted,
    {
        reveal(thumb_cond_branch);
        let cond = ((ins >> 8u16) & 0xF) as u8;
        let mut offset = (ins & 0xFF) as u32;
        if offset & 0x80 != 0 {
            offset = offset | 0xFFFF_FF00;
        }
        if self.check_condition(cond) {
            let target = self.registers.r15.wrapping_add(4).wrapping_add(offset << 1u32);
            self.registers.set(15, target);
            3
        } else {
            1
        }
    }

    fn execute_thumb_long_branch(&mut self, ins: u16) -> (cycles: u32)
        ensures
            final(self).registers@ == thumb_long_branch(old(self).registers@, ins),
            final(self).halted == old(self).halted,
            cycles == 3,
    {
        reveal(thumb_long_branch);
        let offset = (ins & 0x7FF) as u32;
        if ins & 0x800 == 0 {
            let mut val = offset << 12u32;
            if val & 0x0040_0000 != 0 {
                val = val | 0xFF80_0000;
            }
            let lr = self.registers.r15.wrapping_add(4).wrapping_add(val);
            self.registers.set(14, lr);
        } else {
            let target = self.registers.get(14).wrapping_add(offset << 1u32);
            let next_lr = self.registers.r15.wrapping_add(2) | 1;
            self.registers.set(15, target);
            self.registers.set(14, next_lr);
        }
        3
    }

    /// Decodes and runs a Thumb instruction; returns its cycles.
    pub fn execute_thumb(&mut self, instruction: u16, bus: &mut Bus) -> (cycles: u32)
        requires
            old(bus).wf(),
            thumb_execute(gba_state(old(self), old(bus)@), instruction) is Some,
        ensures
            final(bus).wf(),
            thumb_execute(gba_state(old(self), old(bus)@), instruction) == Some((gba_state(final(self), final(bus)@), cycles)),
    {
        reveal(thumb_execute);
        let op = (instruction >> 11u16) as u8;
        if op <= 3 {
            self.execute_thumb_shift_add_sub(instruction)
        } else if op <= 7 {
            self.execute_thumb_immediate_alu(instruction)
        } else if op == 8 {
            self.execute_thumb_alu_ops(instruction)
        } else if op == 9 {
            self.execute_thumb_hi_reg_ops(instruction)
        } else if op == 10 || op == 11 {
            self.execute_thumb_load_store_offset(instruction, bus)
        } else if op == 24 || op == 25 {
            self.execute_thumb_sp_pc_math(instruction)
        } else if op == 28 {
            self.execute_thumb_cond_branch(instruction)
        } else if op == 29 {
            let swi_number = (instruction & 0xFF) as u8;
            self.handle_hle_swi(swi_number, bus);
            1
        } else if op == 30 {
            let mut offset = (instruction & 0x7FF) as u32;
            if offset & 0x400 != 0 {
                offset = offset | 0xFFFF_F800;
            }
            let target = self.registers.r15.wrapping_add(4).wrapping_add(offset << 1u32);
            self.registers.set(15, target);
            3
        } else if op == 31 {
            self.execute_thumb_long_branch(instruction)
        } else {
            1
        }
    }
}

/// Thumb BIC Rd,Rs (encodings 0x4380-0x43BF: Rs in bits 3-5, Rd in bits 0-2) clears from
/// Rd every bit that is set in Rs: Rd becomes Rd AND NOT Rs, Z is set exactly when that
/// is zero, the bus is untouched, and the instruction takes 1 cycle.
pub proof fn lemma_thumb_bic(s: GbaState, ins: u16)
    requires
        s.regs.wf(),
        0x4380 <= ins <= 0x43BF,
    ensures
        ({
            let rd = (ins % 8) as u8;
            let rs = ((ins / 8) % 8) as u8;
            let cleared = s.regs.get(rd) & !s.regs.get(rs);
            match thumb_execute(s, ins) {
                Some((s1, cycles)) => {
                    &&& s1.regs.get(rd) == cleared
                    &&& s1.regs.cpsr.z == (cleared == 0)
                    &&& s1.bus == s.bus
                    &&& cycles == 1
                },
                None => false,
            }
        }),
{
    reveal(thumb_execute);
    reveal(thumb_alu_ops);
    crate::bits::lemma_u16_fields(ins);
    crate::bits::lemma_u16_fields(ins >> 3u16);
    crate::bits::lemma_u16_fields(270u16);
    assert(ins / 2048 == 8);
    assert(ins / 64 == 270);
    assert((ins >> 11u16) as u8 == 8);
    assert(((ins >> 6u16) & 0xF) as u8 == 0xE);
    assert((ins & 7) as u8 == (ins % 8) as u8);
    assert(((ins >> 3u16) & 7) as u8 == ((ins / 8) % 8) as u8);
}

} // verus!
