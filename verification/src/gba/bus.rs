//! The Game Boy Advance memory bus: the 32-bit memory map with its mirrors, the timer,
//! DMA and keypad registers in I/O space, wait states, and DMA transfers.
//!
//! A 16- or 32-bit write to a channel's control register that leaves the channel
//! enabled with immediate timing runs the transfer at once, and a transfer's own writes
//! may start another. Such chains can run forever, so the functions that write take a
//! precondition that the chain they start ends; the chain's effect is defined with a
//! bound on its nesting (`fuel`), and any bound under which it ends gives the result.
use vstd::prelude::*;
use crate::gba::dma::{DmaChannel, DmaController, DmaTrigger, trigger_code};
use crate::gba::ppu::{GbaPpuModel, Ppu, half, VRAM_SIZE};
use crate::gba::timer::{Timer, Timers, tick_from};

verus! {

/// Bytes of BIOS ROM.
pub const BIOS_SIZE: usize = 0x4000;
/// Bytes of external work RAM.
pub const EWRAM_SIZE: usize = 0x40000;
/// Bytes of internal work RAM.
pub const IWRAM_SIZE: usize = 0x8000;
/// Bytes of game pak save RAM.
pub const SRAM_SIZE: usize = 0x10000;

/// The width of a memory access.
#[derive(Debug, Clone, Copy, PartialEq, Eq, Structural)]
pub enum AccessWidth {
    Byte,
    Halfword,
    Word,
}

/// The wait states of an access to `address`: 1 cycle for fast memory, more for the
/// 16-bit buses of EWRAM, palette RAM and VRAM at 32 bits, and for the game pak.
pub open spec fn access_cycles(address: u32, width: AccessWidth, seq: bool) -> u64 {
    let page = (address >> 24u32) & 0x0F;
    let wide = width == AccessWidth::Word;
    if page == 0x02 {
        if wide { 6 } else { 3 }
    } else if page == 0x05 || page == 0x06 {
        if wide { 2 } else { 1 }
    } else if 0x08 <= page <= 0x0D {
        let base: u64 = if seq { 2 } else { 5 };
        if wide { (base + 2) as u64 } else { base }
    } else if page == 0x0E {
        5
    } else {
        1
    }
}

/// The bus as a value.
pub struct GbaBusModel {
    pub bios: Seq<u8>,
    pub ewram: Seq<u8>,
    pub iwram: Seq<u8>,
    pub io: Seq<u8>,
    pub palette_ram: Seq<u8>,
    pub vram: Seq<u8>,
    pub oam: Seq<u8>,
    pub rom: Seq<u8>,
    pub sram: Seq<u8>,
    pub cycles: u64,
    pub ppu: GbaPpuModel,
    pub timers: Seq<Timer>,
    pub dma: Seq<DmaChannel>,
    pub keyinput: u16,
}

/// The index into VRAM of offset `offset` of the VRAM page: 128KB mirrored, with the
/// last 32KB mirroring the 32KB before them.
pub open spec fn vram_index(offset: u32) -> int {
    let a = offset % 0x20000;
    if a >= 0x18000 { a - 0x8000 } else { a as int }
}

impl GbaBusModel {
    pub open spec fn wf(self) -> bool {
        &&& self.bios.len() == BIOS_SIZE
        &&& self.ewram.len() == EWRAM_SIZE
        &&& self.iwram.len() == IWRAM_SIZE
        &&& self.io.len() == 0x400
        &&& self.palette_ram.len() == 0x400
        &&& self.vram.len() == VRAM_SIZE
        &&& self.oam.len() == 0x400
        &&& self.sram.len() == SRAM_SIZE
        &&& self.ppu.wf()
        &&& self.timers.len() == 4
        &&& self.dma.len() == 4
        &&& forall|i: int| 0 <= i < 4 ==> #[trigger] self.timers[i].prescaler_cycles < 1024
    }

    /// What a read of I/O register byte `offset` returns: the live timer counters and
    /// controls, the DMA controls, the keypad, or the I/O memory.
    pub open spec fn io_read(self, offset: u32) -> u8 {
        if 0x100 <= offset <= 0x10F {
            let t = self.timers[((offset - 0x100) / 4) as int];
            let r = (offset - 0x100) % 4;
            if r == 0 {
                t.counter as u8
            } else if r == 1 {
                (t.counter >> 8u16) as u8
            } else if r == 2 {
                t.control as u8
            } else {
                (t.control >> 8u16) as u8
            }
        } else if 0xB0 <= offset <= 0xDF {
            let c = self.dma[((offset - 0xB0) / 12) as int];
            let r = (offset - 0xB0) % 12;
            if r == 10 {
                c.control as u8
            } else if r == 11 {
                (c.control >> 8u16) as u8
            } else {
                self.io[offset as int]
            }
        } else if offset == 0x130 {
            self.keyinput as u8
        } else if offset == 0x131 {
            (self.keyinput >> 8u16) as u8
        } else {
            self.io[offset as int]
        }
    }

    /// What a read of the byte at `address` returns.
    pub open spec fn read_byte(self, address: u32) -> u8 {
        let page = (address >> 24u32) & 0x0F;
        let offset = address & 0x00FF_FFFF;
        if page == 0x00 {
            if offset < 0x4000 { self.bios[offset as int] } else { 0 }
        } else if page == 0x02 {
            self.ewram[(offset % 0x40000) as int]
        } else if page == 0x03 {
            self.iwram[(offset % 0x8000) as int]
        } else if page == 0x04 {
            if offset < 0x400 { self.io_read(offset) } else { 0 }
        } else if page == 0x05 {
            self.palette_ram[(offset % 0x400) as int]
        } else if page == 0x06 {
            self.vram[vram_index(offset)]
        } else if page == 0x07 {
            self.oam[(offset % 0x400) as int]
        } else if 0x08 <= page <= 0x0D {
            let rom_offset = address & 0x01FF_FFFF;
            if rom_offset < self.rom.len() { self.rom[rom_offset as int] } else { 0 }
        } else if page == 0x0E {
            self.sram[(offset % 0x10000) as int]
        } else {
            0
        }
    }

    /// The halfword read at `address`, aligned down to 2 bytes.
    pub open spec fn read_half(self, address: u32) -> u16 {
        let addr = address & !1u32;
        (self.read_byte(addr) as u16) | ((self.read_byte((addr + 1) as u32) as u16) << 8u16)
    }

    /// The word read at `address`, aligned down to 4 bytes.
    pub open spec fn read_word(self, address: u32) -> u32 {
        let addr = address & !3u32;
        (self.read_byte(addr) as u32) | ((self.read_byte((addr + 1) as u32) as u32) << 8u32) | ((self.read_byte(
            (addr + 2) as u32,
        ) as u32) << 16u32) | ((self.read_byte((addr + 3) as u32) as u32) << 24u32)
    }

    /// The bus after writing `val` to timer register byte `r` of timer `i`: the reload
    /// value, or the control, where setting the start bit makes the timer reload at its
    /// next tick.
    pub open spec fn timer_write(self, i: int, r: u32, val: u8) -> GbaBusModel {
        let t = self.timers[i];
        let t2 = if r == 0 {
            Timer { reload: (t.reload & 0xFF00) | (val as u16), ..t }
        } else if r == 1 {
            Timer { reload: (t.reload & 0x00FF) | ((val as u16) << 8u16), ..t }
        } else if r == 2 {
            Timer { control: (t.control & 0xFF00) | (val as u16), ..t }
        } else {
            let new_control = (t.control & 0x00FF) | ((val as u16) << 8u16);
            Timer {
                control: new_control,
                active: if new_control & 0x80 != 0 && t.control & 0x80 == 0 { false } else { t.active },
                ..t
            }
        };
        GbaBusModel { timers: self.timers.update(i, t2), ..self }
    }

    /// The bus after writing `val` to DMA register byte `r` of channel `i`: the address,
    /// count and control registers, where setting the enable bit latches the addresses
    /// and the count and enables the channel.
    pub open spec fn dma_write(self, i: int, r: u32, val: u8) -> GbaBusModel {
        let c = self.dma[i];
        let v = val as u32;
        let c2 = if r == 0 {
            DmaChannel { source_addr: (c.source_addr & 0xFFFF_FF00) | v, ..c }
        } else if r == 1 {
            DmaChannel { source_addr: (c.source_addr & 0xFFFF_00FF) | (v << 8u32), ..c }
        } else if r == 2 {
            DmaChannel { source_addr: (c.source_addr & 0xFF00_FFFF) | (v << 16u32), ..c }
        } else if r == 3 {
            DmaChannel { source_addr: (c.source_addr & 0x00FF_FFFF) | (v << 24u32), ..c }
        } else if r == 4 {
            DmaChannel { dest_addr: (c.dest_addr & 0xFFFF_FF00) | v, ..c }
        } else if r == 5 {
            DmaChannel { dest_addr: (c.dest_addr & 0xFFFF_00FF) | (v << 8u32), ..c }
        } else if r == 6 {
            DmaChannel { dest_addr: (c.dest_addr & 0xFF00_FFFF) | (v << 16u32), ..c }
        } else if r == 7 {
            DmaChannel { dest_addr: (c.dest_addr & 0x00FF_FFFF) | (v << 24u32), ..c }
        } else if r == 8 {
            DmaChannel { count: (c.count & 0xFF00) | v, ..c }
        } else if r == 9 {
            DmaChannel { count: (c.count & 0x00FF) | (v << 8u32), ..c }
        } else if r == 10 {
            DmaChannel { control: (c.control & 0xFF00) | (val as u16), ..c }
        } else {
            let new_control = (c.control & 0x00FF) | ((val as u16) << 8u16);
            if new_control & 0x8000 != 0 && c.control & 0x8000 == 0 {
                DmaChannel {
                    control: new_control,
                    current_source: c.source_addr,
                    current_dest: c.dest_addr,
                    shadow_source: c.source_addr,
                    shadow_dest: c.dest_addr,
                    shadow_count: c.count,
                    enabled: true,
                    ..c
                }
            } else {
                DmaChannel { control: new_control, ..c }
            }
        };
        GbaBusModel { dma: self.dma.update(i, c2), ..self }
    }

    /// The bus after writing `val` to I/O register byte `offset` (below 0x400).
    pub open spec fn io_write(self, offset: u32, val: u8) -> GbaBusModel {
        if 0x100 <= offset <= 0x10F {
            self.timer_write(((offset - 0x100) / 4) as int, ((offset - 0x100) % 4) as u32, val)
        } else if 0xB0 <= offset <= 0xDF {
            self.dma_write(((offset - 0xB0) / 12) as int, ((offset - 0xB0) % 12) as u32, val)
        } else {
            GbaBusModel { io: self.io.update(offset as int, val), ..self }
        }
    }

    /// The bus after a byte write; BIOS and ROM ignore writes.
    pub open spec fn write_byte(self, address: u32, val: u8) -> GbaBusModel {
        let page = (address >> 24u32) & 0x0F;
        let offset = address & 0x00FF_FFFF;
        if page == 0x02 {
            GbaBusModel { ewram: self.ewram.update((offset % 0x40000) as int, val), ..self }
        } else if page == 0x03 {
            GbaBusModel { iwram: self.iwram.update((offset % 0x8000) as int, val), ..self }
        } else if page == 0x04 {
            if offset < 0x400 { self.io_write(offset, val) } else { self }
        } else if page == 0x05 {
            GbaBusModel { palette_ram: self.palette_ram.update((offset % 0x400) as int, val), ..self }
        } else if page == 0x06 {
            GbaBusModel { vram: self.vram.update(vram_index(offset), val), ..self }
        } else if page == 0x07 {
            GbaBusModel { oam: self.oam.update((offset % 0x400) as int, val), ..self }
        } else if page == 0x0E {
            GbaBusModel { sram: self.sram.update((offset % 0x10000) as int, val), ..self }
        } else {
            self
        }
    }

    /// The two byte writes of a halfword write at `addr` (already aligned).
    pub open spec fn store_half(self, addr: u32, val: u16) -> GbaBusModel {
        self.write_byte(addr, val as u8).write_byte((addr + 1) as u32, (val >> 8u16) as u8)
    }

    /// The four byte writes of a word write at `addr` (already aligned).
    pub open spec fn store_word(self, addr: u32, val: u32) -> GbaBusModel {
        self.write_byte(addr, val as u8).write_byte((addr + 1) as u32, (val >> 8u32) as u8).write_byte(
            (addr + 2) as u32,
            (val >> 16u32) as u8,
        ).write_byte((addr + 3) as u32, (val >> 24u32) as u8)
    }

    /// The bus with the wait states of an access added to the cycle count, wrapping at
    /// 2^64.
    pub open spec fn add_cycles(self, address: u32, width: AccessWidth, seq: bool) -> GbaBusModel {
        GbaBusModel { cycles: self.cycles.wrapping_add(access_cycles(address, width, seq)), ..self }
    }

    /// The channel whose immediate transfer a write to `address` may start: a halfword
    /// write to the high control half (`word` false) or a word write to the count and
    /// control word (`word` true) of a channel.
    pub open spec fn started_channel(address: u32, word: bool) -> Option<int> {
        let offset = address & 0x00FF_FFFF;
        if (address >> 24u32) & 0x0F != 0x04 {
            None
        } else if word {
            if offset == 0xB8 || offset == 0xC4 || offset == 0xD0 || offset == 0xDC {
                Some(((offset - 0xB8) / 12) as int)
            } else {
                None
            }
        } else {
            if offset == 0xBA || offset == 0xC6 || offset == 0xD2 || offset == 0xDE {
                Some(((offset - 0xBA) / 12) as int)
            } else {
                None
            }
        }
    }

    /// Whether channel `ch` is enabled with immediate timing.
    pub open spec fn runs_now(self, ch: int) -> bool {
        let control = self.dma[ch].control;
        control & 0x8000 != 0 && (control >> 12u16) & 3 == 0
    }

    /// A halfword write with nesting bound `fuel`: the bytes, then the transfer it starts.
    pub open spec fn write_half_f(self, address: u32, val: u16, fuel: nat) -> Option<GbaBusModel>
        decreases fuel, 1nat, 0nat,
    {
        let m1 = self.store_half(address & !1u32, val);
        match GbaBusModel::started_channel(address, false) {
            Some(ch) => if m1.runs_now(ch) { m1.dma_f(ch, fuel) } else { Some(m1) },
            None => Some(m1),
        }
    }

    /// A word write with nesting bound `fuel`: the bytes, then the transfer it starts.
    pub open spec fn write_word_f(self, address: u32, val: u32, fuel: nat) -> Option<GbaBusModel>
        decreases fuel, 1nat, 0nat,
    {
        let m1 = self.store_word(address & !3u32, val);
        match GbaBusModel::started_channel(address, true) {
            Some(ch) => if m1.runs_now(ch) { m1.dma_f(ch, fuel) } else { Some(m1) },
            None => Some(m1),
        }
    }

    /// The units a transfer on channel `ch` moves: its count, where 0 means the maximum
    /// (0x10000 on channel 3, 0x4000 on the others).
    pub open spec fn dma_units(self, ch: int) -> nat {
        let c = self.dma[ch];
        if c.count == 0 {
            if ch == 3 { 0x10000 } else { 0x4000 }
        } else {
            c.count as nat
        }
    }

    /// A transfer on channel `ch` with nesting bound `fuel`, `None` where it does not end
    /// within it.
    pub open spec fn dma_f(self, ch: int, fuel: nat) -> Option<GbaBusModel>
        decreases fuel, 0nat, 0nat,
    {
        if fuel == 0 {
            None
        } else {
            let c = self.dma[ch];
            match self.dma_loop_f(ch, c.control, c.current_source, c.current_dest, self.dma_units(ch), (fuel - 1) as nat) {
                None => None,
                Some((m2, src, dest)) => Some(m2.dma_finish(ch, c.control, src, dest, c.shadow_count, c.shadow_dest)),
            }
        }
    }

    /// `k` more units of a transfer from `src` to `dest` with control `control`: each reads
    /// a halfword or word, writes it, adds the read's wait states and steps the addresses
    /// (up, down or fixed; a destination of mode 3 steps up). Gives the bus and the final
    /// addresses.
    pub open spec fn dma_loop_f(self, ch: int, control: u16, src: u32, dest: u32, k: nat, fuel: nat) -> Option<(GbaBusModel, u32, u32)>
        decreases fuel, 2nat, k,
    {
        if k == 0 {
            Some((self, src, dest))
        } else {
            let is32 = control & 0x400 != 0;
            let step: u32 = if is32 { 4 } else { 2 };
            let r = if is32 {
                self.write_word_f(dest, self.read_word(src), fuel)
            } else {
                self.write_half_f(dest, self.read_half(src), fuel)
            };
            match r {
                None => None,
                Some(m2) => {
                    let m3 = m2.add_cycles(src, if is32 { AccessWidth::Word } else { AccessWidth::Halfword }, true);
                    let sc = (control >> 7u16) & 3;
                    let dc = (control >> 5u16) & 3;
                    let src2 = if sc == 0 { src.wrapping_add(step) } else if sc == 1 { src.wrapping_sub(step) } else { src };
                    let dest2 = if dc == 0 || dc == 3 {
                        dest.wrapping_add(step)
                    } else if dc == 1 {
                        dest.wrapping_sub(step)
                    } else {
                        dest
                    };
                    m3.dma_loop_f(ch, control, src2, dest2, (k - 1) as nat, fuel)
                },
            }
        }
    }

    /// The end of a transfer on channel `ch`: the DMA interrupt when enabled, the final
    /// addresses, then a repeating transfer with non-immediate timing reloads its count
    /// (and, in destination mode 3, its destination); any other is disabled.
    pub open spec fn dma_finish(self, ch: int, control: u16, src: u32, dest: u32, shadow_count: u32, shadow_dest: u32) -> GbaBusModel {
        let m1 = if control & 0x4000 != 0 {
            self.store_half(0x0400_0202, self.read_half(0x0400_0202) | (1u16 << (8 + ch) as u16))
        } else {
            self
        };
        let c1 = DmaChannel { current_source: src, current_dest: dest, ..m1.dma[ch] };
        let repeat = control & 0x200 != 0;
        let timing = (control >> 12u16) & 3;
        let c2 = if repeat && timing != 0 {
            DmaChannel { count: shadow_count, current_dest: if (control >> 5u16) & 3 == 3 { shadow_dest } else { dest }, ..c1 }
        } else {
            DmaChannel { control: c1.control & !0x8000u16, enabled: false, ..c1 }
        };
        GbaBusModel { dma: m1.dma.update(ch, c2), ..m1 }
    }
}


/// Aligning down to 2 or 4 bytes leaves room for the bytes of the access.
proof fn lemma_align()
    ensures
        forall|a: u32|
            #![trigger (a & !1u32)]
            #![trigger (a & !3u32)]
            (a & !1u32) <= 0xFFFF_FFFE && (a & !3u32) <= 0xFFFF_FFFC,
{
    assert forall|a: u32| #![trigger (a & !1u32)] #![trigger (a & !3u32)] (a & !1u32) <= 0xFFFF_FFFE && (a & !3u32) <= 0xFFFF_FFFC by {
        assert((a & !1u32) <= 0xFFFF_FFFE && (a & !3u32) <= 0xFFFF_FFFC) by (bit_vector);
    }
}

/// The Game Boy Advance memory bus.
#[derive(Debug)]
pub struct Bus {
    /// BIOS ROM, 16KB.
    pub bios: Vec<u8>,
    /// External work RAM, 256KB.
    pub ewram: Vec<u8>,
    /// Internal work RAM, 32KB.
    pub iwram: Vec<u8>,
    /// I/O registers, 1KB.
    pub io: [u8; 0x400],
    /// Palette RAM, 1KB.
    pub palette_ram: [u8; 0x400],
    /// Video RAM, 96KB.
    pub vram: Vec<u8>,
    /// Object attribute memory, 1KB.
    pub oam: [u8; 0x400],
    /// Game pak ROM.
    pub rom: Vec<u8>,
    /// Game pak save RAM, 64KB.
    pub sram: Vec<u8>,
    /// Wait-state cycles counted by DMA transfers.
    pub cycles: u64,
    /// The picture processing unit.
    pub ppu: Ppu,
    /// The hardware timers.
    pub timers: Timers,
    /// The DMA channels.
    pub dma: DmaController,
    /// The keypad, active low (a 0 bit is a pressed key).
    pub keyinput: u16,
}

impl View for Bus {
    type V = GbaBusModel;

    open spec fn view(&self) -> GbaBusModel {
        GbaBusModel {
            bios: self.bios@,
            ewram: self.ewram@,
            iwram: self.iwram@,
            io: self.io@,
            palette_ram: self.palette_ram@,
            vram: self.vram@,
            oam: self.oam@,
            rom: self.rom@,
            sram: self.sram@,
            cycles: self.cycles,
            ppu: self.ppu@,
            timers: self.timers.timers@,
            dma: self.dma.channels@,
            keyinput: self.keyinput,
        }
    }
}

impl GbaBusModel {
    /// The bus at power-on with `rom` inserted: zeroed memories, stopped timers, disabled
    /// DMA, a black screen and all keys released.
    pub open spec fn initial(rom: Seq<u8>) -> GbaBusModel {
        GbaBusModel {
            bios: Seq::new(BIOS_SIZE as nat, |i: int| 0u8),
            ewram: Seq::new(EWRAM_SIZE as nat, |i: int| 0u8),
            iwram: Seq::new(IWRAM_SIZE as nat, |i: int| 0u8),
            io: Seq::new(0x400, |i: int| if i == 0x130 { 0xFFu8 } else if i == 0x131 { 0x03u8 } else { 0u8 }),
            palette_ram: Seq::new(0x400, |i: int| 0u8),
            vram: Seq::new(VRAM_SIZE as nat, |i: int| 0u8),
            oam: Seq::new(0x400, |i: int| 0u8),
            rom,
            sram: Seq::new(SRAM_SIZE as nat, |i: int| 0u8),
            cycles: 0,
            ppu: Ppu::spec_new(),
            timers: Seq::new(4, |i: int| Timer::spec_zero()),
            dma: Seq::new(4, |i: int| DmaChannel::spec_zero()),
            keyinput: 0x03FF,
        }
    }
}

impl Default for Bus {
    /// The bus at power-on with no game pak.
    fn default() -> (b: Self)
        ensures
            b@ == GbaBusModel::initial(Seq::empty()),
            b.wf(),
    {
        let mut io = [0u8; 0x400];
        io[0x130] = 0xFF;
        io[0x131] = 0x03;
        let b = Bus {
            bios: vec![0u8; BIOS_SIZE],
            ewram: vec![0u8; EWRAM_SIZE],
            iwram: vec![0u8; IWRAM_SIZE],
            io,
            palette_ram: [0u8; 0x400],
            vram: vec![0u8; VRAM_SIZE],
            oam: [0u8; 0x400],
            rom: Vec::new(),
            sram: vec![0u8; SRAM_SIZE],
            cycles: 0,
            ppu: Ppu::new(),
            timers: Timers::new(),
            dma: DmaController::new(),
            keyinput: 0x03FF,
        };
        let ghost init = GbaBusModel::initial(Seq::empty());
        assert(b@.bios =~= init.bios);
        assert(b@.ewram =~= init.ewram);
        assert(b@.iwram =~= init.iwram);
        assert(b@.io =~= init.io);
        assert(b@.palette_ram =~= init.palette_ram);
        assert(b@.vram =~= init.vram);
        assert(b@.oam =~= init.oam);
        assert(b@.rom =~= init.rom);
        assert(b@.sram =~= init.sram);
        b
    }
}

impl Bus {
    /// The bus's invariant: memories sized, the PPU and timers in range.
    pub open spec fn wf(&self) -> bool {
        self@.wf()
    }

    /// The bus at power-on with `rom` inserted.
    pub fn new(rom: Vec<u8>) -> (b: Self)
        ensures
            b@ == GbaBusModel::initial(rom@),
            b.wf(),
    {
        let mut bus = Bus::default();
        bus.rom = rom;
        bus
    }

    /// Adds the wait states of an access to the cycle count.
    pub fn add_cycles(&mut self, address: u32, width: AccessWidth, seq: bool)
        ensures
            final(self)@ == old(self)@.add_cycles(address, width, seq),
    {
        let page = (address >> 24u32) & 0x0F;
        let wide = width == AccessWidth::Word;
        let c: u64 = if page == 0x02 {
            if wide { 6 } else { 3 }
        } else if page == 0x05 || page == 0x06 {
            if wide { 2 } else { 1 }
        } else if 0x08 <= page && page <= 0x0D {
            let base: u64 = if seq { 2 } else { 5 };
            if wide { base + 2 } else { base }
        } else if page == 0x0E {
            5
        } else {
            1
        };
        self.cycles = self.cycles.wrapping_add(c);
    }

    fn io_read(&self, offset: u32) -> (v: u8)
        requires
            self.wf(),
            offset < 0x400,
        ensures
            v == self@.io_read(offset),
    {
        if 0x100 <= offset && offset <= 0x10F {
            let t = self.timers.timers[((offset - 0x100) / 4) as usize];
            let r = (offset - 0x100) % 4;
            if r == 0 {
                t.counter as u8
            } else if r == 1 {
                (t.counter >> 8u16) as u8
            } else if r == 2 {
                t.control as u8
            } else {
                (t.control >> 8u16) as u8
            }
        } else if 0xB0 <= offset && offset <= 0xDF {
            let c = self.dma.channels[((offset - 0xB0) / 12) as usize];
            let r = (offset - 0xB0) % 12;
            if r == 10 {
                c.control as u8
            } else if r == 11 {
                (c.control >> 8u16) as u8
            } else {
                self.io[offset as usize]
            }
        } else if offset == 0x130 {
            self.keyinput as u8
        } else if offset == 0x131 {
            (self.keyinput >> 8u16) as u8
        } else {
            self.io[offset as usize]
        }
    }

    /// Reads the byte at `address`.
    pub fn read_byte(&self, address: u32) -> (v: u8)
        requires
            self.wf(),
        ensures
            v == self@.read_byte(address),
    {
        let page = (address >> 24u32) & 0x0F;
        let offset = address & 0x00FF_FFFF;
        if page == 0x00 {
            if offset < 0x4000 { self.bios[offset as usize] } else { 0 }
        } else if page == 0x02 {
            self.ewram[(offset % 0x40000) as usize]
        } else if page == 0x03 {
            self.iwram[(offset % 0x8000) as usize]
        } else if page == 0x04 {
            if offset < 0x400 { self.io_read(offset) } else { 0 }
        } else if page == 0x05 {
            self.palette_ram[(offset % 0x400) as usize]
        } else if page == 0x06 {
            let mut a = offset % 0x20000;
            if a >= 0x18000 {
                a = a - 0x8000;
            }
            self.vram[a as usize]
        } else if page == 0x07 {
            self.oam[(offset % 0x400) as usize]
        } else if 0x08 <= page && page <= 0x0D {
            let rom_offset = (address & 0x01FF_FFFF) as usize;
            if rom_offset < self.rom.len() { self.rom[rom_offset] } else { 0 }
        } else if page == 0x0E {
            self.sram[(offset % 0x10000) as usize]
        } else {
            0
        }
    }

    /// Reads the halfword at `address`, aligned down to 2 bytes.
    pub fn read_halfword(&self, address: u32) -> (v: u16)
        requires
            self.wf(),
        ensures
            v == self@.read_half(address),
    {
        proof { lemma_align(); }
        let addr = address & !1u32;
        let b0 = self.read_byte(addr) as u16;
        let b1 = self.read_byte(addr + 1) as u16;
        b0 | (b1 << 8u16)
    }

    /// Reads the word at `address`, aligned down to 4 bytes.
    pub fn read_word(&self, address: u32) -> (v: u32)
        requires
            self.wf(),
        ensures
            v == self@.read_word(address),
    {
        proof { lemma_align(); }
        let addr = address & !3u32;
        let b0 = self.read_byte(addr) as u32;
        let b1 = self.read_byte(addr + 1) as u32;
        let b2 = self.read_byte(addr + 2) as u32;
        let b3 = self.read_byte(addr + 3) as u32;
        b0 | (b1 << 8u32) | (b2 << 16u32) | (b3 << 24u32)
    }
}


impl Bus {
    fn timer_write(&mut self, i: usize, r: u32, val: u8)
        requires
            old(self).wf(),
            i < 4,
        ensures
            final(self)@ == old(self)@.timer_write(i as int, r, val),
            final(self).wf(),
    {
        let mut t = self.timers.timers[i];
        if r == 0 {
            t.reload = (t.reload & 0xFF00) | (val as u16);
        } else if r == 1 {
            t.reload = (t.reload & 0x00FF) | ((val as u16) << 8u16);
        } else if r == 2 {
            t.control = (t.control & 0xFF00) | (val as u16);
        } else {
            let old_control = t.control;
            let new_control = (old_control & 0x00FF) | ((val as u16) << 8u16);
            t.control = new_control;
            if new_control & 0x80 != 0 && old_control & 0x80 == 0 {
                t.active = false;
            }
        }
        self.timers.timers[i] = t;
    }

    fn dma_write(&mut self, i: usize, r: u32, val: u8)
        requires
            old(self).wf(),
            i < 4,
        ensures
            final(self)@ == old(self)@.dma_write(i as int, r, val),
            final(self).wf(),
    {
        let mut c = self.dma.channels[i];
        let v = val as u32;
        if r == 0 {
            c.source_addr = (c.source_addr & 0xFFFF_FF00) | v;
        } else if r == 1 {
            c.source_addr = (c.source_addr & 0xFFFF_00FF) | (v << 8u32);
        } else if r == 2 {
            c.source_addr = (c.source_addr & 0xFF00_FFFF) | (v << 16u32);
        } else if r == 3 {
            c.source_addr = (c.source_addr & 0x00FF_FFFF) | (v << 24u32);
        } else if r == 4 {
            c.dest_addr = (c.dest_addr & 0xFFFF_FF00) | v;
        } else if r == 5 {
            c.dest_addr = (c.dest_addr & 0xFFFF_00FF) | (v << 8u32);
        } else if r == 6 {
            c.dest_addr = (c.dest_addr & 0xFF00_FFFF) | (v << 16u32);
        } else if r == 7 {
            c.dest_addr = (c.dest_addr & 0x00FF_FFFF) | (v << 24u32);
        } else if r == 8 {
            c.count = (c.count & 0xFF00) | v;
        } else if r == 9 {
            c.count = (c.count & 0x00FF) | (v << 8u32);
        } else if r == 10 {
            c.control = (c.control & 0xFF00) | (val as u16);
        } else {
            let old_control = c.control;
            let new_control = (old_control & 0x00FF) | ((val as u16) << 8u16);
            c.control = new_control;
            if new_control & 0x8000 != 0 && old_control & 0x8000 == 0 {
                c.current_source = c.source_addr;
                c.current_dest = c.dest_addr;
                c.shadow_source = c.source_addr;
                c.shadow_dest = c.dest_addr;
                c.shadow_count = c.count;
                c.enabled = true;
            }
        }
        self.dma.channels[i] = c;
    }

    /// Writes `val` to the byte at `address`; writes to BIOS and ROM are ignored, and
    /// writes to the timer and DMA registers go to the timers and channels.
    pub fn write_byte(&mut self, address: u32, val: u8)
        requires
            old(self).wf(),
        ensures
            final(self)@ == old(self)@.write_byte(address, val),
            final(self).wf(),
    {
        let page = (address >> 24u32) & 0x0F;
        let offset = address & 0x00FF_FFFF;
        if page == 0x02 {
            self.ewram.set((offset % 0x40000) as usize, val);
        } else if page == 0x03 {
            self.iwram.set((offset % 0x8000) as usize, val);
        } else if page == 0x04 {
            if offset < 0x400 {
                if 0x100 <= offset && offset <= 0x10F {
                    self.timer_write(((offset - 0x100) / 4) as usize, (offset - 0x100) % 4, val);
                } else if 0xB0 <= offset && offset <= 0xDF {
                    self.dma_write(((offset - 0xB0) / 12) as usize, (offset - 0xB0) % 12, val);
                } else {
                    self.io[offset as usize] = val;
                }
            }
        } else if page == 0x05 {
            self.palette_ram[(offset % 0x400) as usize] = val;
        } else if page == 0x06 {
            let mut a = offset % 0x20000;
            if a >= 0x18000 {
                a = a - 0x8000;
            }
            self.vram.set(a as usize, val);
        } else if page == 0x07 {
            self.oam[(offset % 0x400) as usize] = val;
        } else if page == 0x0E {
            self.sram.set((offset % 0x10000) as usize, val);
        }
    }

    fn store_half(&mut self, addr: u32, val: u16)
        requires
            old(self).wf(),
            addr <= 0xFFFF_FFFE,
        ensures
            final(self)@ == old(self)@.store_half(addr, val),
            final(self).wf(),
    {
        self.write_byte(addr, val as u8);
        self.write_byte(addr + 1, (val >> 8u16) as u8);
    }

    fn store_word(&mut self, addr: u32, val: u32)
        requires
            old(self).wf(),
            addr <= 0xFFFF_FFFC,
        ensures
            final(self)@ == old(self)@.store_word(addr, val),
            final(self).wf(),
    {
        self.write_byte(addr, val as u8);
        self.write_byte(addr + 1, (val >> 8u32) as u8);
        self.write_byte(addr + 2, (val >> 16u32) as u8);
        self.write_byte(addr + 3, (val >> 24u32) as u8);
    }

    /// The channel whose immediate transfer a write to `address` may start.
    fn started_channel(address: u32, word: bool) -> (c: Option<usize>)
        ensures
            c matches Some(ch) ==> GbaBusModel::started_channel(address, word) == Some(ch as int) && ch < 4,
            c is None ==> GbaBusModel::started_channel(address, word) is None,
    {
        let offset = address & 0x00FF_FFFF;
        if (address >> 24u32) & 0x0F != 0x04 {
            None
        } else if word {
            if offset == 0xB8 || offset == 0xC4 || offset == 0xD0 || offset == 0xDC {
                Some(((offset - 0xB8) / 12) as usize)
            } else {
                None
            }
        } else {
            if offset == 0xBA || offset == 0xC6 || offset == 0xD2 || offset == 0xDE {
                Some(((offset - 0xBA) / 12) as usize)
            } else {
                None
            }
        }
    }

    fn runs_now(&self, ch: usize) -> (b: bool)
        requires
            self.wf(),
            ch < 4,
        ensures
            b == self@.runs_now(ch as int),
    {
        let control = self.dma.channels[ch].control;
        control & 0x8000 != 0 && (control >> 12u16) & 3 == 0
    }

    fn write_half_fuel(&mut self, address: u32, val: u16, Ghost(fuel): Ghost<nat>)
        requires
            old(self).wf(),
            old(self)@.write_half_f(address, val, fuel) is Some,
        ensures
            final(self)@ == old(self)@.write_half_f(address, val, fuel).unwrap(),
            final(self).wf(),
        decreases fuel, 1nat, 0nat,
    {
        proof { lemma_align(); }
        self.store_half(address & !1u32, val);
        match Bus::started_channel(address, false) {
            Some(ch) => {
                if self.runs_now(ch) {
                    self.dma_fuel(ch, Ghost(fuel));
                }
            },
            None => {},
        }
    }

    fn write_word_fuel(&mut self, address: u32, val: u32, Ghost(fuel): Ghost<nat>)
        requires
            old(self).wf(),
            old(self)@.write_word_f(address, val, fuel) is Some,
        ensures
            final(self)@ == old(self)@.write_word_f(address, val, fuel).unwrap(),
            final(self).wf(),
        decreases fuel, 1nat, 0nat,
    {
        proof { lemma_align(); }
        self.store_word(address & !3u32, val);
        match Bus::started_channel(address, true) {
            Some(ch) => {
                if self.runs_now(ch) {
                    self.dma_fuel(ch, Ghost(fuel));
                }
            },
            None => {},
        }
    }

    /// Runs the transfer of channel `ch`.
    fn dma_fuel(&mut self, ch: usize, Ghost(fuel): Ghost<nat>)
        requires
            old(self).wf(),
            ch < 4,
            old(self)@.dma_f(ch as int, fuel) is Some,
        ensures
            final(self)@ == old(self)@.dma_f(ch as int, fuel).unwrap(),
            final(self).wf(),
        decreases fuel, 0nat, 0nat,
    {
        let ghost pre = self@;
        let c = self.dma.channels[ch];
        let count: u32 = if c.count == 0 {
            if ch == 3 { 0x10000 } else { 0x4000 }
        } else {
            c.count
        };
        let control = c.control;
        let mut src = c.current_source;
        let mut dest = c.current_dest;
        let shadow_count = c.shadow_count;
        let shadow_dest = c.shadow_dest;
        let is32 = control & 0x400 != 0;
        let step: u32 = if is32 { 4 } else { 2 };
        let width = if is32 { AccessWidth::Word } else { AccessWidth::Halfword };
        let src_control = (control >> 7u16) & 3;
        let dest_control = (control >> 5u16) & 3;
        let ghost target = pre.dma_loop_f(ch as int, control, c.current_source, c.current_dest, pre.dma_units(ch as int), (fuel - 1) as nat);
        let mut i: u32 = 0;
        while i < count
            invariant
                i <= count,
                count == pre.dma_units(ch as int),
                ch < 4,
                fuel > 0,
                self.wf(),
                is32 == (control & 0x400 != 0),
                step == (if is32 { 4u32 } else { 2u32 }),
                width == (if is32 { AccessWidth::Word } else { AccessWidth::Halfword }),
                src_control == (control >> 7u16) & 3,
                dest_control == (control >> 5u16) & 3,
                target is Some,
                self@.dma_loop_f(ch as int, control, src, dest, (count - i) as nat, (fuel - 1) as nat) == target,
            decreases count - i,
        {
            if is32 {
                let val = self.read_word(src);
                self.write_word_fuel(dest, val, Ghost((fuel - 1) as nat));
            } else {
                let val = self.read_halfword(src);
                self.write_half_fuel(dest, val, Ghost((fuel - 1) as nat));
            }
            self.add_cycles(src, width, true);
            if src_control == 0 {
                src = src.wrapping_add(step);
            } else if src_control == 1 {
                src = src.wrapping_sub(step);
            }
            if dest_control == 0 || dest_control == 3 {
                dest = dest.wrapping_add(step);
            } else if dest_control == 1 {
                dest = dest.wrapping_sub(step);
            }
            i = i + 1;
        }
        if control & 0x4000 != 0 {
            let current_if = self.read_halfword(0x0400_0202);
            self.store_half(0x0400_0202, current_if | (1u16 << (8 + ch as u16)));
        }
        let mut channel = self.dma.channels[ch];
        channel.current_source = src;
        channel.current_dest = dest;
        let repeat = control & 0x200 != 0;
        let start_timing = (control >> 12u16) & 3;
        if repeat && start_timing != 0 {
            channel.count = shadow_count;
            if dest_control == 3 {
                channel.current_dest = shadow_dest;
            }
        } else {
            channel.control = channel.control & !0x8000u16;
            channel.enabled = false;
        }
        self.dma.channels[ch] = channel;
    }
}


impl GbaBusModel {
    /// Whether the transfers a halfword write starts end.
    pub open spec fn half_write_ok(self, address: u32, val: u16) -> bool {
        exists|f: nat| #[trigger] self.write_half_f(address, val, f) is Some
    }

    /// The bus after a halfword write whose transfers end.
    pub open spec fn after_half_write(self, address: u32, val: u16) -> GbaBusModel {
        self.write_half_f(address, val, choose|f: nat| #[trigger] self.write_half_f(address, val, f) is Some).unwrap()
    }

    /// Whether the transfers a word write starts end.
    pub open spec fn word_write_ok(self, address: u32, val: u32) -> bool {
        exists|f: nat| #[trigger] self.write_word_f(address, val, f) is Some
    }

    /// The bus after a word write whose transfers end.
    pub open spec fn after_word_write(self, address: u32, val: u32) -> GbaBusModel {
        self.write_word_f(address, val, choose|f: nat| #[trigger] self.write_word_f(address, val, f) is Some).unwrap()
    }

    /// Whether a transfer on channel `ch` ends.
    pub open spec fn dma_ok(self, ch: int) -> bool {
        exists|f: nat| #[trigger] self.dma_f(ch, f) is Some
    }

    /// The bus after a transfer on channel `ch` that ends.
    pub open spec fn after_dma(self, ch: int) -> GbaBusModel {
        self.dma_f(ch, choose|f: nat| #[trigger] self.dma_f(ch, f) is Some).unwrap()
    }

    /// Whether channel `ch` starts on `trigger`: it is enabled with that start timing.
    pub open spec fn starts_on(self, ch: int, trigger: DmaTrigger) -> bool {
        self.dma[ch].enabled && (self.dma[ch].control >> 12u16) & 3 == trigger_code(trigger)
    }

    /// The transfers of channels `i` and up among `flags`, in channel order.
    pub open spec fn run_flagged(self, flags: Seq<bool>, i: int, fuel: nat) -> Option<GbaBusModel>
        decreases 4 - i,
    {
        if i >= 4 || i < 0 {
            Some(self)
        } else if flags[i] {
            match self.dma_f(i, fuel) {
                None => None,
                Some(m2) => m2.run_flagged(flags, i + 1, fuel),
            }
        } else {
            self.run_flagged(flags, i + 1, fuel)
        }
    }

    /// The channels that start on `trigger`.
    pub open spec fn flags_for(self, trigger: DmaTrigger) -> Seq<bool> {
        Seq::new(4, |i: int| self.starts_on(i, trigger))
    }

    /// The channels that start on `trigger` run, in channel order, with nesting bound
    /// `fuel`.
    pub open spec fn trigger_f(self, trigger: DmaTrigger, fuel: nat) -> Option<GbaBusModel> {
        self.run_flagged(self.flags_for(trigger), 0, fuel)
    }

    /// Whether the transfers that `trigger` starts end.
    pub open spec fn trigger_ok(self, trigger: DmaTrigger) -> bool {
        exists|f: nat| #[trigger] self.trigger_f(trigger, f) is Some
    }

    /// The bus after the transfers that `trigger` starts, when they end.
    pub open spec fn after_trigger(self, trigger: DmaTrigger) -> GbaBusModel {
        self.trigger_f(trigger, choose|f: nat| #[trigger] self.trigger_f(trigger, f) is Some).unwrap()
    }

    /// The timers, then the PPU, run for `cycles` cycles, before any DMA the PPU triggers.
    pub open spec fn tick_devices(self, cycles: u32) -> (GbaBusModel, Option<DmaTrigger>) {
        let (t, io1) = tick_from(self.timers, 0, cycles, false, self.io);
        let m1 = GbaBusModel { timers: t, io: io1, ..self };
        let (p, io2, trig) = m1.ppu.tick(cycles, m1.io, m1.palette_ram, m1.vram, m1.oam);
        (GbaBusModel { ppu: p, io: io2, ..m1 }, trig)
    }

    /// Whether the DMA that a tick of `cycles` cycles triggers ends.
    pub open spec fn tick_ok(self, cycles: u32) -> bool {
        let (m2, trig) = self.tick_devices(cycles);
        match trig {
            Some(t) => m2.trigger_ok(t),
            None => true,
        }
    }

    /// The bus after `cycles` cycles: the timers, the PPU and the DMA it triggers.
    pub open spec fn after_tick(self, cycles: u32) -> GbaBusModel {
        let (m2, trig) = self.tick_devices(cycles);
        match trig {
            Some(t) => m2.after_trigger(t),
            None => m2,
        }
    }

    /// The keypad with `buttons` pressed (bits 0-7: A, B, Select, Start, Right, Left, Up,
    /// Down), mirrored in the KEYINPUT register.
    pub open spec fn with_buttons(self, buttons: u8) -> GbaBusModel {
        let key = 0x03FFu16 & !(buttons as u16);
        GbaBusModel { keyinput: key, io: self.io.update(0x130, key as u8).update(0x131, (key >> 8u16) as u8), ..self }
    }
}

impl Bus {
    /// Writes the halfword `val` at `address` (aligned down to 2 bytes), then runs the
    /// transfer it starts: a write to a channel's high control half that leaves it
    /// enabled with immediate timing.
    pub fn write_halfword(&mut self, address: u32, val: u16)
        requires
            old(self).wf(),
            old(self)@.half_write_ok(address, val),
        ensures
            final(self)@ == old(self)@.after_half_write(address, val),
            final(self).wf(),
    {
        let ghost fuel = choose|f: nat| #[trigger] self@.write_half_f(address, val, f) is Some;
        self.write_half_fuel(address, val, Ghost(fuel));
    }

    /// Writes the word `val` at `address` (aligned down to 4 bytes), then runs the
    /// transfer it starts: a write to a channel's count and control that leaves it
    /// enabled with immediate timing.
    pub fn write_word(&mut self, address: u32, val: u32)
        requires
            old(self).wf(),
            old(self)@.word_write_ok(address, val),
        ensures
            final(self)@ == old(self)@.after_word_write(address, val),
            final(self).wf(),
    {
        let ghost fuel = choose|f: nat| #[trigger] self@.write_word_f(address, val, f) is Some;
        self.write_word_fuel(address, val, Ghost(fuel));
    }

    /// Runs the transfer of channel `channel_idx`.
    pub fn execute_dma_transfer(&mut self, channel_idx: usize)
        requires
            old(self).wf(),
            channel_idx < 4,
            old(self)@.dma_ok(channel_idx as int),
        ensures
            final(self)@ == old(self)@.after_dma(channel_idx as int),
            final(self).wf(),
    {
        let ghost fuel = choose|f: nat| #[trigger] self@.dma_f(channel_idx as int, f) is Some;
        self.dma_fuel(channel_idx, Ghost(fuel));
    }

    /// Runs, in channel order, the transfers of the channels that are enabled with the
    /// start timing of `trigger`.
    pub fn trigger_dma(&mut self, trigger: DmaTrigger)
        requires
            old(self).wf(),
            old(self)@.trigger_ok(trigger),
        ensures
            final(self)@ == old(self)@.after_trigger(trigger),
            final(self).wf(),
    {
        let ghost fuel = choose|f: nat| #[trigger] self@.trigger_f(trigger, f) is Some;
        let ghost flags = self@.flags_for(trigger);
        let ghost target = self@.trigger_f(trigger, fuel);
        let code = trigger.code();
        let mut triggered = [false; 4];
        let mut i: usize = 0;
        while i < 4
            invariant
                i <= 4,
                self.wf(),
                code == trigger_code(trigger),
                flags == self@.flags_for(trigger),
                forall|k: int| 0 <= k < i ==> #[trigger] triggered@[k] == flags[k],
            decreases 4 - i,
        {
            let channel = self.dma.channels[i];
            triggered[i] = channel.enabled && (channel.control >> 12u16) & 3 == code;
            i = i + 1;
        }
        assert(triggered@ =~= flags);
        let mut i: usize = 0;
        while i < 4
            invariant
                i <= 4,
                self.wf(),
                triggered@ == flags,
                target is Some,
                self@.run_flagged(flags, i as int, fuel) == target,
            decreases 4 - i,
        {
            if triggered[i] {
                self.dma_fuel(i, Ghost(fuel));
            }
            i = i + 1;
        }
    }

    /// Runs the timers and the PPU for `cycles` CPU cycles, then the DMA transfers that
    /// the PPU's VBlank or HBlank triggers.
    pub fn tick(&mut self, cycles: u32)
        requires
            old(self).wf(),
            cycles <= u32::MAX - 1232,
            old(self)@.tick_ok(cycles),
        ensures
            final(self)@ == old(self)@.after_tick(cycles),
            final(self).wf(),
    {
        self.timers.tick(cycles, &mut self.io);
        let t = self.ppu.tick(cycles, &mut self.io, &self.palette_ram, self.vram.as_slice(), &self.oam);
        match t {
            Some(trigger) => {
                self.trigger_dma(trigger);
            },
            None => {},
        }
    }

    /// Sets the pressed buttons (bits 0-7: A, B, Select, Start, Right, Left, Up, Down;
    /// 1 = pressed) in the active-low keypad register.
    pub fn set_button_state(&mut self, buttons: u8)
        ensures
            final(self)@ == old(self)@.with_buttons(buttons),
    {
        let key: u16 = 0x03FF & !(buttons as u16);
        self.keyinput = key;
        self.io[0x130] = key as u8;
        self.io[0x131] = (key >> 8u16) as u8;
    }
}


/// Whether `address` is in work RAM: external (page 2) or internal (page 3).
pub open spec fn is_work_ram(address: u32) -> bool {
    let page = (address >> 24u32) & 0x0F;
    page == 0x02 || page == 0x03
}

/// A byte written to RAM (work RAM, palette RAM, VRAM, OAM or save RAM) reads back as
/// written.
pub proof fn lemma_byte_write_read(m: GbaBusModel, address: u32, val: u8)
    requires
        m.wf(),
        ({
            let page = (address >> 24u32) & 0x0F;
            page == 0x02 || page == 0x03 || page == 0x05 || page == 0x06 || page == 0x07 || page == 0x0E
        }),
    ensures
        m.write_byte(address, val).read_byte(address) == val,
{
}

/// The bytes of an aligned access to work RAM stay in its page, at consecutive offsets.
proof fn lemma_aligned_bytes(addr: u32, k: u32)
    requires
        k < 4,
        addr & 3 == 0,
    ensures
        ((addr + k) as u32 >> 24u32) & 0x0F == (addr >> 24u32) & 0x0F,
        ((addr + k) as u32) & 0x00FF_FFFF == (addr & 0x00FF_FFFF) + k,
        (addr & 0x00FF_FFFF) % 4 == 0,
        addr + k <= u32::MAX,
{
    assert(((addr + k) as u32 >> 24u32) & 0x0F == (addr >> 24u32) & 0x0F && ((addr + k) as u32) & 0x00FF_FFFF == (addr
        & 0x00FF_FFFF) + k && (addr & 0x00FF_FFFF) % 4 == 0 && addr + k <= u32::MAX) by (bit_vector)
        requires
            k < 4,
            addr & 3 == 0,
    ;
}

/// Splitting a word into bytes and joining them gives it back.
proof fn lemma_word_bytes(v: u32)
    ensures
        ((v as u8) as u32) | ((((v >> 8u32) as u8) as u32) << 8u32) | ((((v >> 16u32) as u8) as u32) << 16u32) | ((((v
            >> 24u32) as u8) as u32) << 24u32) == v,
        ((v as u16) as u8) as u16 | ((((v as u16) >> 8u16) as u8) as u16) << 8u16 == v as u16,
{
    assert(((v as u8) as u32) | ((((v >> 8u32) as u8) as u32) << 8u32) | ((((v >> 16u32) as u8) as u32) << 16u32) | ((((v
        >> 24u32) as u8) as u32) << 24u32) == v && ((v as u16) as u8) as u16 | ((((v as u16) >> 8u16) as u8) as u16) << 8u16
        == v as u16) by (bit_vector);
}

/// A word written to work RAM starts no DMA and reads back as written.
pub proof fn lemma_word_write_read(m: GbaBusModel, address: u32, val: u32)
    requires
        m.wf(),
        is_work_ram(address),
    ensures
        m.word_write_ok(address, val),
        m.after_word_write(address, val).read_word(address) == val,
{
    let addr = address & !3u32;
    assert(addr & 3 == 0 && (addr >> 24u32) & 0x0F == (address >> 24u32) & 0x0F) by (bit_vector)
        requires
            addr == address & !3u32,
    ;
    assert(m.write_word_f(address, val, 0) is Some);
    let f = choose|f: nat| #[trigger] m.write_word_f(address, val, f) is Some;
    assert(m.write_word_f(address, val, f) == Some(m.store_word(addr, val)));
    lemma_aligned_bytes(addr, 0);
    lemma_aligned_bytes(addr, 1);
    lemma_aligned_bytes(addr, 2);
    lemma_aligned_bytes(addr, 3);
    assert((addr + 0) as u32 == addr);
    lemma_word_bytes(val);
    lemma_aligned_id(addr);
}

/// Aligning an aligned address changes nothing.
proof fn lemma_aligned_id(addr: u32)
    requires
        addr & 3 == 0,
    ensures
        addr & !3u32 == addr,
{
    assert(addr & !3u32 == addr) by (bit_vector)
        requires
            addr & 3 == 0,
    ;
}

/// The index in its work RAM of an address in work RAM.
pub open spec fn work_ram_index(address: u32) -> int {
    let offset = address & 0x00FF_FFFF;
    if (address >> 24u32) & 0x0F == 0x02 {
        (offset % 0x40000) as int
    } else {
        (offset % 0x8000) as int
    }
}

/// An aligned word written to work RAM starts no DMA, is stored as its four bytes, keeps
/// the bus well formed and reads back as written.
#[verifier::rlimit(40)]
pub proof fn lemma_word_store_ram(m: GbaBusModel, address: u32, val: u32)
    requires
        m.wf(),
        is_work_ram(address),
        address & 3 == 0,
    ensures
        m.word_write_ok(address, val),
        m.after_word_write(address, val) == m.store_word(address, val),
        m.store_word(address, val).wf(),
        m.store_word(address, val).read_word(address) == val,
{
    lemma_word_write_read(m, address, val);
    lemma_aligned_id(address);
    lemma_aligned_bytes(address, 0);
    lemma_aligned_bytes(address, 1);
    lemma_aligned_bytes(address, 2);
    lemma_aligned_bytes(address, 3);
    assert((address + 0) as u32 == address);
    let f = choose|f: nat| #[trigger] m.write_word_f(address, val, f) is Some;
    assert(m.write_word_f(address, val, f) == Some(m.store_word(address, val)));
    let m1 = m.write_byte(address, val as u8);
    let m2 = m1.write_byte((address + 1) as u32, (val >> 8u32) as u8);
    let m3 = m2.write_byte((address + 2) as u32, (val >> 16u32) as u8);
    assert(m1.wf());
    assert(m2.wf());
    assert(m3.wf());
}

/// Offsets of the bytes of an aligned word stay inside its aligned slot of a RAM of
/// `size` bytes.
proof fn lemma_slot_offset(off: int, k: int, size: int)
    requires
        off >= 0,
        off % 4 == 0,
        0 <= k < 4,
        size == 0x8000 || size == 0x40000,
    ensures
        (off + k) % size == off % size + k,
        (off % size) % 4 == 0,
{
    assert((off + k) % size == off % size + k && (off % size) % 4 == 0) by (nonlinear_arith)
        requires
            off >= 0,
            off % 4 == 0,
            0 <= k < 4,
            size == 0x8000 || size == 0x40000,
    {
        vstd::arithmetic::div_mod::lemma_fundamental_div_mod(off, size);
        vstd::arithmetic::div_mod::lemma_fundamental_div_mod_converse(off + k, size, off / size, off % size + k);
    }
}

/// A word written to one aligned slot of work RAM leaves the word of every other slot
/// of the same work RAM reading as before.
pub proof fn lemma_word_store_other(m: GbaBusModel, a: u32, b: u32, val: u32)
    requires
        m.wf(),
        is_work_ram(a),
        a & 3 == 0,
        b & 3 == 0,
        (b >> 24u32) & 0x0F == (a >> 24u32) & 0x0F,
        work_ram_index(a) != work_ram_index(b),
    ensures
        m.store_word(a, val).read_word(b) == m.read_word(b),
{
    lemma_aligned_id(b);
    let size: int = if (a >> 24u32) & 0x0F == 0x02 { 0x40000 } else { 0x8000 };
    let oa = (a & 0x00FF_FFFF) as int;
    let ob = (b & 0x00FF_FFFF) as int;
    lemma_aligned_bytes(a, 0);
    lemma_aligned_bytes(a, 1);
    lemma_aligned_bytes(a, 2);
    lemma_aligned_bytes(a, 3);
    lemma_aligned_bytes(b, 0);
    lemma_aligned_bytes(b, 1);
    lemma_aligned_bytes(b, 2);
    lemma_aligned_bytes(b, 3);
    assert((a + 0) as u32 == a);
    assert((b + 0) as u32 == b);
    lemma_slot_offset(oa, 0, size);
    lemma_slot_offset(oa, 1, size);
    lemma_slot_offset(oa, 2, size);
    lemma_slot_offset(oa, 3, size);
    lemma_slot_offset(ob, 0, size);
    lemma_slot_offset(ob, 1, size);
    lemma_slot_offset(ob, 2, size);
    lemma_slot_offset(ob, 3, size);
}

/// A halfword written to work RAM starts no DMA and reads back as written.
pub proof fn lemma_half_write_read(m: GbaBusModel, address: u32, val: u16)
    requires
        m.wf(),
        is_work_ram(address),
    ensures
        m.half_write_ok(address, val),
        m.after_half_write(address, val).read_half(address) == val,
{
    let addr = address & !1u32;
    assert(addr & 1 == 0 && addr <= 0xFFFF_FFFE && (addr >> 24u32) & 0x0F == (address >> 24u32) & 0x0F && ((addr + 1) as u32
        >> 24u32) & 0x0F == (addr >> 24u32) & 0x0F && ((addr + 1) as u32) & 0x00FF_FFFF == (addr & 0x00FF_FFFF) + 1 && (addr
        & 0x00FF_FFFF) % 2 == 0 && addr & !1u32 == addr) by (bit_vector)
        requires
            addr == address & !1u32,
    ;
    assert(m.write_half_f(address, val, 0) is Some);
    let f = choose|f: nat| #[trigger] m.write_half_f(address, val, f) is Some;
    assert(m.write_half_f(address, val, f) == Some(m.store_half(addr, val)));
    lemma_word_bytes(val as u32);
    assert((val as u32) as u16 == val);
}

/// The keypad register reads the pressed buttons active low, over the 10 key bits.
pub proof fn lemma_keypad(m: GbaBusModel, buttons: u8)
    requires
        m.wf(),
    ensures
        m.with_buttons(buttons).read_half(0x0400_0130) == 0x03FFu16 & !(buttons as u16),
{
    let k = 0x03FFu16 & !(buttons as u16);
    assert(0x0400_0130u32 & !1u32 == 0x0400_0130u32 && (0x0400_0130u32 >> 24u32) & 0x0F == 4 && 0x0400_0130u32 & 0x00FF_FFFF
        == 0x130 && (0x0400_0131u32 >> 24u32) & 0x0F == 4 && 0x0400_0131u32 & 0x00FF_FFFF == 0x131) by (bit_vector);
    assert(((k as u8) as u16) | (((k >> 8u16) as u8) as u16) << 8u16 == k) by (bit_vector);
}

} // verus!
