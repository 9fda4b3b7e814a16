//! The stack frame of the game's IRQ handler: the BIOS pushes seven words on the
//! System stack on entry and pops them on return.
use vstd::prelude::*;
use crate::gba::bus::{
    GbaBusModel, is_work_ram, lemma_word_store_other, lemma_word_store_ram, work_ram_index,
};
use crate::gba::cpu::{GbaState, irq_entry_spec, irq_exit_spec, push_words};
use crate::gba::regs::{CpuMode, RegsModel};

verus! {

/// Moving an aligned address down by at most 32 bytes inside its page keeps the page
/// and the alignment and lowers the offset by as much.
proof fn lemma_step_down(x: u32, d: u32)
    requires
        x & 3 == 0,
        d % 4 == 0,
        d <= 32,
        x & 0x00FF_FFFF >= d,
    ensures
        ((x - d) as u32 >> 24u32) & 0x0F == (x >> 24u32) & 0x0F,
        ((x - d) as u32) & 0x00FF_FFFF == (x & 0x00FF_FFFF) - d,
        ((x - d) as u32) & 3 == 0,
        x >= d,
{
    assert(((x - d) as u32 >> 24u32) & 0x0F == (x >> 24u32) & 0x0F && ((x - d) as u32) & 0x00FF_FFFF == (x
        & 0x00FF_FFFF) - d && ((x - d) as u32) & 3 == 0 && x >= d) by (bit_vector)
        requires
            x & 3 == 0,
            d % 4 == 0,
            d <= 32,
            x & 0x00FF_FFFF >= d,
    ;
}

/// Different slots a few words apart in one page are different slots of its work RAM.
proof fn lemma_slots_apart(x: u32, d: u32)
    requires
        x & 3 == 0,
        d % 4 == 0,
        0 < d <= 32,
        x & 0x00FF_FFFF >= d,
        is_work_ram(x),
    ensures
        work_ram_index(x) != work_ram_index((x - d) as u32),
{
    lemma_step_down(x, d);
    let o = (x & 0x00FF_FFFF) as int;
    let size: int = if (x >> 24u32) & 0x0F == 0x02 { 0x40000 } else { 0x8000 };
    assert(o % size != (o - d) % size) by (nonlinear_arith)
        requires
            o >= d,
            0 < d <= 32,
            size == 0x8000 || size == 0x40000,
    {
        vstd::arithmetic::div_mod::lemma_fundamental_div_mod(o, size);
        vstd::arithmetic::div_mod::lemma_fundamental_div_mod(o - d, size);
    }
}

/// Whether the aligned work RAM slot of `c` is one of the `n` words below `sp`.
pub open spec fn below_stack(sp: u32, n: int, c: u32) -> bool {
    exists|j: int| 1 <= j <= n && work_ram_index(c) == #[trigger] work_ram_index((sp - 4 * j) as u32)
}

/// Pushing words onto a stack in work RAM that has room for them: every write succeeds,
/// each word lands 4 bytes below the one before, and no other slot of that work RAM
/// changes.
proof fn lemma_push_words(bus: GbaBusModel, sp: u32, vals: Seq<u32>, i: int)
    requires
        bus.wf(),
        0 <= i <= vals.len() <= 8,
        sp & 3 == 0,
        is_work_ram(sp),
        sp & 0x00FF_FFFF >= 4 * (vals.len() - i),
    ensures
        push_words(bus, sp, vals, i) is Some,
        ({
            let (b, sp2) = push_words(bus, sp, vals, i).unwrap();
            let n = vals.len() - i;
            &&& b.wf()
            &&& sp2 == sp - 4 * n
            &&& forall|j: int| 1 <= j <= n ==> #[trigger] b.read_word((sp - 4 * j) as u32) == vals[i + j - 1]
            &&& forall|c: u32|
                c & 3 == 0 && (c >> 24u32) & 0x0F == (sp >> 24u32) & 0x0F && !below_stack(sp, n, c)
                    ==> #[trigger] b.read_word(c) == bus.read_word(c)
        }),
    decreases vals.len() - i,
{
    if i < vals.len() {
        let n = vals.len() - i;
        let addr = sp.wrapping_sub(4);
        lemma_step_down(sp, 4);
        assert(addr == (sp - 4) as u32);
        lemma_word_store_ram(bus, addr, vals[i]);
        let bus1 = bus.after_word_write(addr, vals[i]);
        lemma_push_words(bus1, addr, vals, i + 1);
        let (b, sp2) = push_words(bus1, addr, vals, i + 1).unwrap();
        assert(push_words(bus, sp, vals, i) == push_words(bus1, addr, vals, i + 1));
        assert forall|j: int| 1 <= j <= n implies #[trigger] b.read_word((sp - 4 * j) as u32) == vals[i + j - 1] by {
            if j == 1 {
                if below_stack(addr, n - 1, addr) {
                    let jj = choose|jj: int| 1 <= jj <= n - 1 && work_ram_index(addr) == #[trigger] work_ram_index(
                        (addr - 4 * jj) as u32,
                    );
                    lemma_slots_apart(addr, (4 * jj) as u32);
                }
            } else {
                assert((addr - 4 * (j - 1)) as u32 == (sp - 4 * j) as u32);
            }
        }
        assert forall|c: u32|
            c & 3 == 0 && (c >> 24u32) & 0x0F == (sp >> 24u32) & 0x0F && !below_stack(sp, n, c)
                implies #[trigger] b.read_word(c) == bus.read_word(c) by {
            if below_stack(addr, n - 1, c) {
                let jj = choose|jj: int| 1 <= jj <= n - 1 && work_ram_index(c) == #[trigger] work_ram_index(
                    (addr - 4 * jj) as u32,
                );
                assert((addr - 4 * jj) as u32 == (sp - 4 * (jj + 1)) as u32);
                assert(work_ram_index(c) == work_ram_index((sp - 4 * (jj + 1)) as u32));
            }
            assert(work_ram_index(c) != work_ram_index((sp - 4 * 1) as u32));
            lemma_word_store_other(bus, addr, c, vals[i]);
        }
    }
}

/// Returning from the game's IRQ handler right after entering it undoes the entry: the
/// words pushed on the System stack come back into R0-R3, R12 and the System LR, the
/// System SP is where it was, the CPSR is restored from the IRQ SPSR, and execution
/// resumes at the IRQ link register minus 4. This holds for an entry in IRQ mode with a
/// handler set and room for the seven words on a System stack in work RAM.
pub proof fn lemma_irq_exit_undoes_entry(s: GbaState)
    requires
        s.bus.wf(),
        s.regs.wf(),
        s.regs.cpsr.mode == CpuMode::Irq,
        s.bus.read_word(0x0300_7FFC) != 0,
        s.regs.r13[0] & 3 == 0,
        is_work_ram(s.regs.r13[0]),
        s.regs.r13[0] & 0x00FF_FFFF >= 28,
    ensures
        irq_entry_spec(s) is Some,
        irq_exit_spec(irq_entry_spec(s).unwrap()).regs == (RegsModel {
            cpsr: s.regs.spsr_of(),
            r15: s.regs.get(14).wrapping_sub(4),
            pc_written: true,
            ..s.regs
        }),
{
    reveal(irq_entry_spec);
    reveal(irq_exit_spec);
    let lr_irq = s.regs.get(14);
    let r1 = s.regs.with_mode(CpuMode::System);
    let sp = r1.get(13);
    assert(sp == s.regs.r13[0]);
    let vals = seq![lr_irq, r1.get(14), r1.get(12), r1.get(3), r1.get(2), r1.get(1), r1.get(0)];
    lemma_push_words(s.bus, sp, vals, 0);
    let (b, sp2) = push_words(s.bus, sp, vals, 0).unwrap();
    let e = irq_entry_spec(s).unwrap();
    assert(e.bus == b);
    assert(e.regs.get(13) == sp2);
    assert(sp2 == sp - 28);
    assert(b.read_word((sp - 4 * 1) as u32) == vals[0]);
    assert(b.read_word((sp - 4 * 2) as u32) == vals[1]);
    assert(b.read_word((sp - 4 * 3) as u32) == vals[2]);
    assert(b.read_word((sp - 4 * 4) as u32) == vals[3]);
    assert(b.read_word((sp - 4 * 5) as u32) == vals[4]);
    assert(b.read_word((sp - 4 * 6) as u32) == vals[5]);
    assert(b.read_word((sp - 4 * 7) as u32) == vals[6]);
    let x = irq_exit_spec(e);
    assert(x.regs.r0_r7 =~= s.regs.r0_r7);
    assert(x.regs.r8_r12 =~= s.regs.r8_r12);
    assert(x.regs.r13 =~= s.regs.r13);
    assert(x.regs.r14 =~= s.regs.r14);
}

} // verus!
