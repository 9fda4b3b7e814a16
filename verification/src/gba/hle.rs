//! BIOS calls (software interrupts) carried out directly: RegisterRamReset, Halt,
//! VBlankIntrWait, CpuSet and CpuFastSet.
use vstd::prelude::*;
use crate::gba::bus::{Bus, GbaBusModel, EWRAM_SIZE};
use crate::gba::cpu::{Cpu, GbaState, gba_state};

verus! {

/// `len` zero bytes.
pub open spec fn zeros(len: nat) -> Seq<u8> {
    Seq::new(len, |i: int| 0u8)
}

/// The bus after RegisterRamReset with `flags`: bit 0 clears EWRAM, bit 1 IWRAM but its
/// last 0x200 bytes, bit 2 palette RAM, bit 3 VRAM, bit 4 OAM, bit 5 the I/O memory.
pub open spec fn ram_reset(bus: GbaBusModel, flags: u32) -> GbaBusModel {
    GbaBusModel {
        ewram: if flags & 0x01 != 0 { zeros(bus.ewram.len()) } else { bus.ewram },
        iwram: if flags & 0x02 != 0 {
            Seq::new(bus.iwram.len(), |i: int| if i < 0x7E00 { 0u8 } else { bus.iwram[i] })
        } else {
            bus.iwram
        },
        palette_ram: if flags & 0x04 != 0 { zeros(bus.palette_ram.len()) } else { bus.palette_ram },
        vram: if flags & 0x08 != 0 { zeros(bus.vram.len()) } else { bus.vram },
        oam: if flags & 0x10 != 0 { zeros(bus.oam.len()) } else { bus.oam },
        io: if flags & 0x20 != 0 { zeros(bus.io.len()) } else { bus.io },
        ..bus
    }
}

/// `k` units copied from `src` to `dest`, halfwords or words, the destination stepping
/// up and the source too unless fixed. `None` where a write starts DMA that does not
/// end.
pub open spec fn copy_units(bus: GbaBusModel, is32: bool, fixed: bool, src: u32, dest: u32, k: nat) -> Option<GbaBusModel>
    decreases k,
{
    if k == 0 {
        Some(bus)
    } else {
        let step: u32 = if is32 { 4 } else { 2 };
        let next = if is32 {
            let v = bus.read_word(src);
            if bus.word_write_ok(dest, v) { Some(bus.after_word_write(dest, v)) } else { None }
        } else {
            let v = bus.read_half(src);
            if bus.half_write_ok(dest, v) { Some(bus.after_half_write(dest, v)) } else { None }
        };
        match next {
            None => None,
            Some(b) => copy_units(
                b,
                is32,
                fixed,
                if fixed { src } else { src.wrapping_add(step) },
                dest.wrapping_add(step),
                (k - 1) as nat,
            ),
        }
    }
}

/// A BIOS call `swi` carried out directly; calls not supported do nothing.
#[verifier::opaque]
pub open spec fn hle_swi(s: GbaState, swi: u8) -> Option<GbaState> {
    let r0 = s.regs.get(0);
    let r1 = s.regs.get(1);
    let r2 = s.regs.get(2);
    if swi == 0x01 {
        Some(GbaState { bus: ram_reset(s.bus, r0), ..s })
    } else if swi == 0x02 || swi == 0x05 {
        Some(GbaState { halted: true, ..s })
    } else if swi == 0x0B {
        match copy_units(s.bus, r2 & 0x0400_0000 != 0, r2 & 0x0100_0000 != 0, r0, r1, (r2 & 0x001F_FFFF) as nat) {
            Some(b) => Some(GbaState { bus: b, ..s }),
            None => None,
        }
    } else if swi == 0x0C {
        match copy_units(s.bus, true, r2 & 0x0100_0000 != 0, r0, r1, (r2 & 0x001F_FFFF) as nat) {
            Some(b) => Some(GbaState { bus: b, ..s }),
            None => None,
        }
    } else {
        Some(s)
    }
}

impl Cpu {
    /// Carries out BIOS call `swi_number`: RegisterRamReset (0x01), Halt (0x02),
    /// VBlankIntrWait (0x05, which halts until an interrupt), CpuSet (0x0B) and CpuFastSet
    /// (0x0C); other calls do nothing.
    pub fn handle_hle_swi(&mut self, swi_number: u8, bus: &mut Bus)
        requires
            old(bus).wf(),
            hle_swi(gba_state(old(self), old(bus)@), swi_number) is Some,
        ensures
            final(bus).wf(),
            hle_swi(gba_state(old(self), old(bus)@), swi_number) == Some(gba_state(final(self), final(bus)@)),
    {
        reveal(hle_swi);
        if swi_number == 0x01 {
            let flags = self.registers.get(0);
            Cpu::register_ram_reset(flags, bus);
        } else if swi_number == 0x02 || swi_number == 0x05 {
            self.halted = true;
        } else if swi_number == 0x0B {
            let src = self.registers.get(0);
            let dest = self.registers.get(1);
            let count_control = self.registers.get(2);
            Cpu::cpu_set(src, dest, count_control, bus);
        } else if swi_number == 0x0C {
            let src = self.registers.get(0);
            let dest = self.registers.get(1);
            let count_control = self.registers.get(2);
            Cpu::cpu_fast_set(src, dest, count_control, bus);
        }
    }

    fn fill_zero(v: &mut Vec<u8>, end: usize)
        requires
            end <= old(v)@.len(),
        ensures
            final(v)@ == Seq::new(old(v)@.len(), |i: int| if i < end { 0u8 } else { old(v)@[i] }),
    {
        let ghost pre = v@;
        let mut i: usize = 0;
        while i < end
            invariant
                i <= end,
                end <= pre.len(),
                v@.len() == pre.len(),
                forall|k: int| 0 <= k < pre.len() ==> #[trigger] v@[k] == (if k < i { 0u8 } else { pre[k] }),
            decreases end - i,
        {
            v.set(i, 0);
            i = i + 1;
        }
        assert(v@ =~= Seq::new(pre.len(), |i: int| if i < end { 0u8 } else { pre[i] }));
    }

    fn fill_zero_array(a: &mut [u8; 0x400])
        ensures
            final(a)@ == zeros(0x400),
    {
        let mut i: usize = 0;
        while i < 0x400
            invariant
                i <= 0x400,
                forall|k: int| 0 <= k < i ==> #[trigger] a@[k] == 0u8,
            decreases 0x400 - i,
        {
            a[i] = 0;
            i = i + 1;
        }
        assert(a@ =~= zeros(0x400));
    }

    fn register_ram_reset(flags: u32, bus: &mut Bus)
        requires
            old(bus).wf(),
        ensures
            final(bus)@ == ram_reset(old(bus)@, flags),
            final(bus).wf(),
    {
        let ghost pre = bus@;
        if flags & 0x01 != 0 {
            Cpu::fill_zero(&mut bus.ewram, EWRAM_SIZE);
            assert(bus@.ewram =~= zeros(pre.ewram.len()));
        }
        if flags & 0x02 != 0 {
            Cpu::fill_zero(&mut bus.iwram, 0x8000 - 0x200);
        }
        if flags & 0x04 != 0 {
            Cpu::fill_zero_array(&mut bus.palette_ram);
        }
        if flags & 0x08 != 0 {
            let len = bus.vram.len();
            Cpu::fill_zero(&mut bus.vram, len);
            assert(bus@.vram =~= zeros(pre.vram.len()));
        }
        if flags & 0x10 != 0 {
            Cpu::fill_zero_array(&mut bus.oam);
        }
        if flags & 0x20 != 0 {
            Cpu::fill_zero_array(&mut bus.io);
        }
        assert(bus@ == ram_reset(pre, flags));
    }

    /// Copies `k` units from `src` to `dest`.
    fn copy_loop(is32: bool, fixed: bool, src: u32, dest: u32, k: u32, bus: &mut Bus)
        requires
            old(bus).wf(),
            copy_units(old(bus)@, is32, fixed, src, dest, k as nat) is Some,
        ensures
            final(bus).wf(),
            copy_units(old(bus)@, is32, fixed, src, dest, k as nat) == Some(final(bus)@),
    {
        let ghost target = copy_units(bus@, is32, fixed, src, dest, k as nat);
        let step: u32 = if is32 { 4 } else { 2 };
        let mut s = src;
        let mut d = dest;
        let mut i: u32 = 0;
        while i < k
            invariant
                i <= k,
                bus.wf(),
                step == (if is32 { 4u32 } else { 2u32 }),
                target is Some,
                copy_units(bus@, is32, fixed, s, d, (k - i) as nat) == target,
            decreases k - i,
        {
            if is32 {
                let val = bus.read_word(s);
                bus.write_word(d, val);
            } else {
                let val = bus.read_halfword(s);
                bus.write_halfword(d, val);
            }
            d = d.wrapping_add(step);
            if !fixed {
                s = s.wrapping_add(step);
            }
            i = i + 1;
        }
    }

    fn cpu_set(src: u32, dest: u32, count_control: u32, bus: &mut Bus)
        requires
            old(bus).wf(),
            copy_units(old(bus)@, count_control & 0x0400_0000 != 0, count_control & 0x0100_0000 != 0, src, dest,
                (count_control & 0x001F_FFFF) as nat) is Some,
        ensures
            final(bus).wf(),
            copy_units(old(bus)@, count_control & 0x0400_0000 != 0, count_control & 0x0100_0000 != 0, src, dest,
                (count_control & 0x001F_FFFF) as nat) == Some(final(bus)@),
    {
        let count = count_control & 0x001F_FFFF;
        let is_32bit = count_control & 0x0400_0000 != 0;
        let fixed_src = count_control & 0x0100_0000 != 0;
        Cpu::copy_loop(is_32bit, fixed_src, src, dest, count, bus);
    }

    fn cpu_fast_set(src: u32, dest: u32, count_control: u32, bus: &mut Bus)
        requires
            old(bus).wf(),
            copy_units(old(bus)@, true, count_control & 0x0100_0000 != 0, src, dest, (count_control & 0x001F_FFFF) as nat) is Some,
        ensures
            final(bus).wf(),
            copy_units(old(bus)@, true, count_control & 0x0100_0000 != 0, src, dest, (count_control & 0x001F_FFFF) as nat)
                == Some(final(bus)@),
    {
        let count = count_control & 0x001F_FFFF;
        let fixed_src = count_control & 0x0100_0000 != 0;
        Cpu::copy_loop(true, fixed_src, src, dest, count, bus);
    }
}

} // verus!
