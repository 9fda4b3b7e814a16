//! The Game Boy memory bus: the 16-bit memory map, I/O registers, joypad, OAM DMA
//! and the DIV/TIMA timer.
use vstd::prelude::*;
use crate::gb::cartridge::{Cartridge, CartridgeModel};
use crate::gb::apu::{Apu, ApuModel};
use crate::bits::lemma_and_le_u8;

verus! {

/// Bytes of video RAM.
pub const VRAM_SIZE: usize = 0x2000;
/// Bytes of work RAM.
pub const WRAM_SIZE: usize = 0x2000;
/// Bytes of object attribute memory.
pub const OAM_SIZE: usize = 0x00A0;
/// Bytes of I/O registers.
pub const IO_SIZE: usize = 0x0080;
/// Bytes of high RAM.
pub const HRAM_SIZE: usize = 0x007F;

/// The bus as a value.
pub struct BusModel {
    pub cart: CartridgeModel,
    pub vram: Seq<u8>,
    pub wram: Seq<u8>,
    pub oam: Seq<u8>,
    pub io: Seq<u8>,
    pub hram: Seq<u8>,
    pub ie: u8,
    pub button_state: u8,
    pub apu: ApuModel,
    pub div_counter: u32,
    pub timer_counter: u32,
    pub is_cgb: bool,
}

/// Whether `address` is a sound register or wave RAM.
pub open spec fn is_apu_address(address: u16) -> bool {
    (0xFF10 <= address <= 0xFF26) || (0xFF30 <= address <= 0xFF3F)
}

/// I/O register values after boot.
pub open spec fn initial_io(i: int) -> u8 {
    if i == 0x00 { 0xFF }
    else if i == 0x02 { 0x7E }
    else if i == 0x0F { 0xE1 }
    else if i == 0x10 { 0x80 }
    else if i == 0x11 { 0xBF }
    else if i == 0x12 { 0xF3 }
    else if i == 0x14 { 0xBF }
    else if i == 0x16 { 0x3F }
    else if i == 0x19 { 0xBF }
    else if i == 0x1A { 0x7F }
    else if i == 0x1B { 0xFF }
    else if i == 0x1C { 0x9F }
    else if i == 0x1E { 0xBF }
    else if i == 0x20 { 0xFF }
    else if i == 0x23 { 0xBF }
    else if i == 0x24 { 0x77 }
    else if i == 0x25 { 0xF3 }
    else if i == 0x26 { 0xF1 }
    else if i == 0x40 { 0x93 }
    else if i == 0x47 { 0xFC }
    else if i == 0x48 { 0xFF }
    else if i == 0x49 { 0xFF }
    else if i == 0x50 { 0x01 }
    else { 0x00 }
}

/// The TIMA period in cycles for the TAC clock select bits.
pub open spec fn timer_period(tac: u8) -> u32 {
    let sel = tac & 0x03;
    if sel == 0 { 1024 } else if sel == 1 { 16 } else if sel == 2 { 64 } else { 256 }
}

/// TIMA after `k` increments, reloading from TMA on overflow, and whether it overflowed.
pub open spec fn tima_after(tima: u8, tma: u8, k: nat) -> (u8, bool)
    decreases k,
{
    if k == 0 {
        (tima, false)
    } else {
        let (t, o) = tima_after(tima, tma, (k - 1) as nat);
        if t == 0xFF {
            (tma, true)
        } else {
            ((t + 1) as u8, o)
        }
    }
}

impl BusModel {
    /// The bus with `cart` inserted and every register in its post-boot state.
    pub open spec fn initial(cart: CartridgeModel) -> BusModel {
        BusModel {
            cart,
            vram: Seq::new(VRAM_SIZE as nat, |i: int| 0u8),
            wram: Seq::new(WRAM_SIZE as nat, |i: int| 0u8),
            oam: Seq::new(OAM_SIZE as nat, |i: int| 0u8),
            io: Seq::new(IO_SIZE as nat, |i: int| initial_io(i)),
            hram: Seq::new(HRAM_SIZE as nat, |i: int| 0u8),
            ie: 0,
            button_state: 0xFF,
            apu: ApuModel::initial(),
            div_counter: 0,
            timer_counter: 0,
            is_cgb: false,
        }
    }

    pub open spec fn wf(self) -> bool {
        &&& self.vram.len() == VRAM_SIZE
        &&& self.wram.len() == WRAM_SIZE
        &&& self.oam.len() == OAM_SIZE
        &&& self.io.len() == IO_SIZE
        &&& self.hram.len() == HRAM_SIZE
        &&& self.apu.wf()
        &&& self.div_counter < 256
        &&& self.timer_counter < 1024
    }

    /// The joypad register: the selected button groups, active low, under the select bits.
    /// P1 bit 4 clear selects the action buttons (A, B, Select, Start: bits 0-3 of the
    /// button state), bit 5 clear the directions (Right, Left, Up, Down: bits 4-7).
    pub open spec fn joypad(self) -> u8 {
        let select = self.io[0];
        let lower0: u8 = 0x0F;
        let lower1: u8 = if select & 0x10 == 0 { lower0 & !(self.button_state & 0x0F) } else { lower0 };
        let lower2: u8 = if select & 0x20 == 0 {
            lower1 & !((self.button_state >> 4u8) & 0x0F)
        } else {
            lower1
        };
        (select & 0x30) | 0xC0 | (lower2 & 0x0F)
    }

    /// What a read of `address` returns.
    pub open spec fn read8(self, address: u16) -> u8 {
        if address <= 0x7FFF {
            self.cart.read_rom(address)
        } else if address <= 0x9FFF {
            self.vram[address - 0x8000]
        } else if address <= 0xBFFF {
            self.cart.read_ram(address)
        } else if address <= 0xDFFF {
            self.wram[address - 0xC000]
        } else if address <= 0xFDFF {
            self.wram[address - 0xE000]
        } else if address <= 0xFE9F {
            self.oam[address - 0xFE00]
        } else if address <= 0xFEFF {
            0xFF
        } else if address == 0xFF00 {
            self.joypad()
        } else if is_apu_address(address) {
            self.apu.read_register(address)
        } else if address <= 0xFF7F {
            self.io[address - 0xFF00]
        } else if address <= 0xFFFE {
            self.hram[address - 0xFF80]
        } else {
            self.ie
        }
    }

    /// OAM after a DMA transfer from page `page`: 160 bytes read from `page * 0x100`.
    pub open spec fn dma_oam(self, page: u8) -> Seq<u8> {
        Seq::new(OAM_SIZE as nat, |i: int| self.read8(((((page as u16) << 8u16) as int) + i) as u16))
    }

    /// The bus after a write of `value` to `address`.
    pub open spec fn write8(self, address: u16, value: u8) -> BusModel {
        if address <= 0x7FFF {
            BusModel { cart: self.cart.write_rom(address, value), ..self }
        } else if address <= 0x9FFF {
            BusModel { vram: self.vram.update(address - 0x8000, value), ..self }
        } else if address <= 0xBFFF {
            BusModel { cart: self.cart.write_ram(address, value), ..self }
        } else if address <= 0xDFFF {
            BusModel { wram: self.wram.update(address - 0xC000, value), ..self }
        } else if address <= 0xFDFF {
            BusModel { wram: self.wram.update(address - 0xE000, value), ..self }
        } else if address <= 0xFE9F {
            BusModel { oam: self.oam.update(address - 0xFE00, value), ..self }
        } else if address <= 0xFEFF {
            self
        } else if address == 0xFF00 {
            BusModel { io: self.io.update(0, value), ..self }
        } else if is_apu_address(address) {
            BusModel { apu: self.apu.write_register(address, value), ..self }
        } else if address == 0xFF04 {
            BusModel { io: self.io.update(0x04, 0), div_counter: 0, ..self }
        } else if address == 0xFF41 {
            BusModel { io: self.io.update(0x41, (self.io[0x41] & 0x07) | (value & 0x78)), ..self }
        } else if address <= 0xFF7F {
            let oam = if address == 0xFF46 { self.dma_oam(value) } else { self.oam };
            BusModel { oam, io: self.io.update(address - 0xFF00, value), ..self }
        } else if address <= 0xFFFE {
            BusModel { hram: self.hram.update(address - 0xFF80, value), ..self }
        } else {
            BusModel { ie: value, ..self }
        }
    }

    /// The bus with the interrupts in `flag` requested in IF.
    pub open spec fn request_interrupt_model(self, flag: u8) -> BusModel {
        BusModel { io: self.io.update(0x0F, self.io[0x0F] | flag), ..self }
    }

    /// The bus with LY set to `scanline`.
    pub open spec fn set_ly_model(self, scanline: u8) -> BusModel {
        BusModel { io: self.io.update(0x44, scanline), ..self }
    }

    /// The bus with the PPU-owned STAT bits set: the mode and the LY=LYC flag.
    pub open spec fn set_stat_model(self, mode: u8, lyc_match: bool) -> BusModel {
        BusModel {
            io: self.io.update(0x41, (self.io[0x41] & 0xF8) | (mode & 0x03) | (if lyc_match { 0x04u8 } else { 0x00u8 })),
            ..self
        }
    }

    /// The bus after the timer runs for `cycles` cycles: DIV counts every 256 cycles; when
    /// TAC enables it, TIMA counts at the selected rate, reloading from TMA and requesting
    /// the timer interrupt on overflow.
    pub open spec fn tick_timer(self, cycles: u32) -> BusModel {
        let d = self.div_counter + cycles;
        let io1 = self.io.update(0x04, ((self.io[0x04] + d / 256) % 256) as u8);
        let m1 = BusModel { io: io1, div_counter: (d % 256) as u32, ..self };
        let tac = self.io[0x07];
        if tac & 0x04 != 0 {
            let freq = timer_period(tac);
            let t = self.timer_counter + cycles;
            let (tima, overflowed) = tima_after(self.io[0x05], self.io[0x06], (t / freq as int) as nat);
            let io2 = io1.update(0x05, tima);
            let io3 = if overflowed { io2.update(0x0F, io2[0x0F] | 0x04) } else { io2 };
            BusModel { io: io3, timer_counter: (t % freq as int) as u32, ..m1 }
        } else {
            m1
        }
    }
}

/// The Game Boy memory bus.
#[derive(Debug)]
pub struct Bus {
    cartridge: Cartridge,
    vram: [u8; 0x2000],
    wram: [u8; 0x2000],
    oam: [u8; 0xA0],
    io: [u8; 0x80],
    hram: [u8; 0x7F],
    ie: u8,
    button_state: u8,
    /// The audio processing unit.
    pub apu: Apu,
    div_counter: u32,
    timer_counter: u32,
    /// Whether the bus runs in Color Game Boy mode; this bus emulates the monochrome
    /// (DMG) hardware, so it is false.
    pub is_cgb: bool,
}

impl View for Bus {
    type V = BusModel;

    closed spec fn view(&self) -> BusModel {
        BusModel {
            cart: self.cartridge@,
            vram: self.vram@,
            wram: self.wram@,
            oam: self.oam@,
            io: self.io@,
            hram: self.hram@,
            ie: self.ie,
            button_state: self.button_state,
            apu: self.apu@,
            div_counter: self.div_counter,
            timer_counter: self.timer_counter,
            is_cgb: self.is_cgb,
        }
    }
}

impl Bus {
    /// The bus's invariant: memories sized and the audio unit and timer counters in range.
    pub open spec fn wf(&self) -> bool {
        self@.wf()
    }

    /// A bus with `cartridge` inserted and every register in its post-boot state.
    pub fn new(cartridge: Cartridge) -> (b: Self)
        ensures
            b.wf(),
            b@ == BusModel::initial(cartridge@),
    {
        let mut io = [0u8; 0x80];
        io[0x00] = 0xFF;
        io[0x02] = 0x7E;
        io[0x0F] = 0xE1;
        io[0x10] = 0x80;
        io[0x11] = 0xBF;
        io[0x12] = 0xF3;
        io[0x14] = 0xBF;
        io[0x16] = 0x3F;
        io[0x19] = 0xBF;
        io[0x1A] = 0x7F;
        io[0x1B] = 0xFF;
        io[0x1C] = 0x9F;
        io[0x1E] = 0xBF;
        io[0x20] = 0xFF;
        io[0x23] = 0xBF;
        io[0x24] = 0x77;
        io[0x25] = 0xF3;
        io[0x26] = 0xF1;
        io[0x40] = 0x93;
        io[0x47] = 0xFC;
        io[0x48] = 0xFF;
        io[0x49] = 0xFF;
        io[0x50] = 0x01;
        let b = Bus {
            cartridge,
            vram: [0u8; 0x2000],
            wram: [0u8; 0x2000],
            oam: [0u8; 0xA0],
            io,
            hram: [0u8; 0x7F],
            ie: 0,
            button_state: 0xFF,
            apu: Apu::new(),
            div_counter: 0,
            timer_counter: 0,
            is_cgb: false,
        };
        assert(b@.io =~= Seq::new(IO_SIZE as nat, |i: int| initial_io(i)));
        assert(b@.vram =~= Seq::new(VRAM_SIZE as nat, |i: int| 0u8));
        assert(b@.wram =~= Seq::new(WRAM_SIZE as nat, |i: int| 0u8));
        assert(b@.oam =~= Seq::new(OAM_SIZE as nat, |i: int| 0u8));
        assert(b@.hram =~= Seq::new(HRAM_SIZE as nat, |i: int| 0u8));
        b
    }

    /// The inserted cartridge.
    pub fn cartridge(&self) -> (c: &Cartridge)
        ensures
            c@ == self@.cart,
    {
        &self.cartridge
    }

    /// The inserted cartridge, for restoring its RAM.
    pub fn cartridge_mut(&mut self) -> (c: &mut Cartridge)
        ensures
            c@ == old(self)@.cart,
            final(self)@ == (BusModel { cart: final(c)@, ..old(self)@ }),
    {
        &mut self.cartridge
    }

    /// Sets the pressed buttons: bits 0-3 are A, B, Select, Start; bits 4-7 are
    /// Right, Left, Up, Down (1 = pressed).
    pub fn set_button_state(&mut self, buttons: u8)
        ensures
            final(self)@ == (BusModel { button_state: buttons, ..old(self)@ }),
    {
        self.button_state = buttons;
    }

    fn read_joypad(&self) -> (v: u8)
        requires
            self.wf(),
        ensures
            v == self@.joypad(),
    {
        let select = self.io[0];
        let mut lower: u8 = 0x0F;
        if select & 0x10 == 0 {
            let pressed = self.button_state & 0x0F;
            lower = lower & !pressed;
        }
        if select & 0x20 == 0 {
            let pressed = (self.button_state >> 4u8) & 0x0F;
            lower = lower & !pressed;
        }
        (select & 0x30) | 0xC0 | (lower & 0x0F)
    }

    /// Reads the byte at `address` through the memory map.
    pub fn read8(&self, address: u16) -> (v: u8)
        requires
            self.wf(),
        ensures
            v == self@.read8(address),
    {
        if address <= 0x7FFF {
            self.cartridge.read_rom(address)
        } else if address <= 0x9FFF {
            self.vram[(address - 0x8000) as usize]
        } else if address <= 0xBFFF {
            self.cartridge.read_ram(address)
        } else if address <= 0xDFFF {
            self.wram[(address - 0xC000) as usize]
        } else if address <= 0xFDFF {
            self.wram[(address - 0xE000) as usize]
        } else if address <= 0xFE9F {
            self.oam[(address - 0xFE00) as usize]
        } else if address <= 0xFEFF {
            0xFF
        } else if address == 0xFF00 {
            self.read_joypad()
        } else if (0xFF10 <= address && address <= 0xFF26) || (0xFF30 <= address && address <= 0xFF3F) {
            self.apu.read_register(address)
        } else if address <= 0xFF7F {
            self.io[(address - 0xFF00) as usize]
        } else if address <= 0xFFFE {
            self.hram[(address - 0xFF80) as usize]
        } else {
            self.ie
        }
    }

    /// Copies 160 bytes from page `page` into OAM.
    fn oam_dma(&mut self, page: u8)
        requires
            old(self).wf(),
        ensures
            final(self)@ == (BusModel { oam: old(self)@.dma_oam(page), ..old(self)@ }),
            final(self).wf(),
    {
        let source: u16 = (page as u16) << 8u16;
        let ghost pre = self@;
        assert(source == page as u16 * 256) by (bit_vector)
            requires
                source == (page as u16) << 8u16,
        ;
        let mut offset: usize = 0;
        while offset < OAM_SIZE
            invariant
                offset <= OAM_SIZE,
                source == (page as u16) << 8u16,
                source == page as u16 * 256,
                self.wf(),
                self@ == (BusModel { oam: self@.oam, ..pre }),
                forall|j: int| 0 <= j < offset ==> self@.oam[j] == pre.read8((source + j) as u16),
                forall|j: int| offset <= j < OAM_SIZE ==> self@.oam[j] == pre.oam[j],
            decreases OAM_SIZE - offset,
        {
            let a: u16 = source + offset as u16;
            assert(self@.read8(a) == pre.read8(a));
            let v = self.read8(a);
            self.oam[offset] = v;
            offset = offset + 1;
        }
        assert(self@.oam =~= pre.dma_oam(page));
    }

    /// Writes `value` to `address` through the memory map. ROM writes set the
    /// cartridge's banking registers; a write to 0xFF46 starts an OAM DMA transfer.
    pub fn write8(&mut self, address: u16, value: u8)
        requires
            old(self).wf(),
        ensures
            final(self)@ == old(self)@.write8(address, value),
            final(self).wf(),
    {
        if address <= 0x7FFF {
            self.cartridge.write_rom(address, value);
        } else if address <= 0x9FFF {
            self.vram[(address - 0x8000) as usize] = value;
        } else if address <= 0xBFFF {
            self.cartridge.write_ram(address, value);
        } else if address <= 0xDFFF {
            self.wram[(address - 0xC000) as usize] = value;
        } else if address <= 0xFDFF {
            self.wram[(address - 0xE000) as usize] = value;
        } else if address <= 0xFE9F {
            self.oam[(address - 0xFE00) as usize] = value;
        } else if address <= 0xFEFF {
        } else if address == 0xFF00 {
            self.io[0] = value;
        } else if (0xFF10 <= address && address <= 0xFF26) || (0xFF30 <= address && address <= 0xFF3F) {
            self.apu.write_register(address, value);
        } else if address == 0xFF04 {
            self.io[0x04] = 0;
            self.div_counter = 0;
        } else if address == 0xFF41 {
            self.io[0x41] = (self.io[0x41] & 0x07) | (value & 0x78);
        } else if address <= 0xFF7F {
            if address == 0xFF46 {
                self.oam_dma(value);
            }
            self.io[(address - 0xFF00) as usize] = value;
        } else if address <= 0xFFFE {
            self.hram[(address - 0xFF80) as usize] = value;
        } else {
            self.ie = value;
        }
    }

    /// The LCD control register (0xFF40).
    pub fn lcdc(&self) -> (v: u8)
        requires
            self.wf(),
        ensures
            v == self@.io[0x40],
    {
        self.io[0x40]
    }

    /// The LCD status register (0xFF41).
    pub fn stat(&self) -> (v: u8)
        requires
            self.wf(),
        ensures
            v == self@.io[0x41],
    {
        self.io[0x41]
    }

    /// Sets the PPU-owned bits of STAT: the mode in bits 0-1 and the LY=LYC flag in
    /// bit 2, keeping bits 3-7.
    pub fn set_stat_ppu_bits(&mut self, mode: u8, lyc_match: bool)
        requires
            old(self).wf(),
        ensures
            final(self)@ == old(self)@.set_stat_model(mode, lyc_match),
            final(self).wf(),
    {
        let game_bits = self.io[0x41] & 0xF8;
        let lyc_bit: u8 = if lyc_match { 0x04 } else { 0x00 };
        self.io[0x41] = game_bits | (mode & 0x03) | lyc_bit;
    }

    /// Sets LY (0xFF44), the current scanline.
    pub fn set_ly(&mut self, scanline: u8)
        requires
            old(self).wf(),
        ensures
            final(self)@ == old(self)@.set_ly_model(scanline),
            final(self).wf(),
    {
        self.io[0x44] = scanline;
    }

    /// The LY compare register (0xFF45).
    pub fn lyc(&self) -> (v: u8)
        requires
            self.wf(),
        ensures
            v == self@.io[0x45],
    {
        self.io[0x45]
    }

    /// Requests the interrupts in `flag` by setting them in IF (0xFF0F).
    pub fn request_interrupt(&mut self, flag: u8)
        requires
            old(self).wf(),
        ensures
            final(self)@ == old(self)@.request_interrupt_model(flag),
            final(self).wf(),
    {
        self.io[0x0F] = self.io[0x0F] | flag;
    }

    /// Runs the DIV and TIMA timers for `cycles` CPU cycles.
    pub fn tick_timer(&mut self, cycles: u32)
        requires
            old(self).wf(),
            old(self)@.div_counter + cycles <= u32::MAX,
            old(self)@.io[0x07] & 0x04 != 0 ==> old(self)@.timer_counter + cycles <= u32::MAX,
        ensures
            final(self)@ == old(self)@.tick_timer(cycles),
            final(self).wf(),
    {
        let d = self.div_counter + cycles;
        self.div_counter = d % 256;
        self.io[0x04] = ((self.io[0x04] as u32 + d / 256) % 256) as u8;
        let tac = self.io[0x07];
        if tac & 0x04 != 0 {
            let sel = tac & 0x03;
            let freq: u32 = if sel == 0 { 1024 } else if sel == 1 { 16 } else if sel == 2 { 64 } else { 256 };
            let t = self.timer_counter + cycles;
            let k = t / freq;
            self.timer_counter = t % freq;
            let tma = self.io[0x06];
            let t0 = self.io[0x05];
            let mut tima = t0;
            let mut overflowed = false;
            let mut i: u32 = 0;
            while i < k
                invariant
                    i <= k,
                    (tima, overflowed) == tima_after(t0, tma, i as nat),
                decreases k - i,
            {
                if tima == 0xFF {
                    tima = tma;
                    overflowed = true;
                } else {
                    tima = tima + 1;
                }
                i = i + 1;
            }
            self.io[0x05] = tima;
            if overflowed {
                self.io[0x0F] = self.io[0x0F] | 0x04;
            }
        }
    }
}


/// Whether `address` is plain memory on the bus: video RAM, work RAM and its echo,
/// object attribute memory, high RAM, or the interrupt enable register.
pub open spec fn is_plain_memory(address: u16) -> bool {
    ||| 0x8000 <= address <= 0x9FFF
    ||| 0xC000 <= address <= 0xFE9F
    ||| 0xFF80 <= address
}

/// A byte written to plain memory reads back as written.
pub proof fn lemma_memory_write_read(m: BusModel, address: u16, value: u8)
    requires
        m.wf(),
        is_plain_memory(address),
    ensures
        m.write8(address, value).read8(address) == value,
        m.write8(address, value).wf(),
{
}

/// Writing plain memory at one address leaves every other plain-memory address that
/// is not its echo reading as before.
pub proof fn lemma_memory_write_other(m: BusModel, address: u16, value: u8, other: u16)
    requires
        m.wf(),
        is_plain_memory(address),
        is_plain_memory(other),
        address != other,
        !(0xC000 <= address <= 0xDDFF && other == address + 0x2000),
        !(0xE000 <= address <= 0xFDFF && other == address - 0x2000),
    ensures
        m.write8(address, value).read8(other) == m.read8(other),
{
}

/// The echo area 0xE000-0xFDFF reads the work RAM 0x2000 below it.
pub proof fn lemma_echo_ram(m: BusModel, address: u16, value: u8)
    requires
        m.wf(),
        0xC000 <= address <= 0xDDFF,
    ensures
        m.write8(address, value).read8((address + 0x2000) as u16) == value,
{
}

/// The joypad register shows the selected button group, active low: with the action
/// buttons selected (P1 bit 4 clear) and the directions deselected (bit 5 set), bits 0-3
/// are the complement of A, B, Select, Start; with the directions selected (bit 5
/// clear) and the action buttons deselected, they are the complement of Right, Left,
/// Up, Down.
pub proof fn lemma_joypad_buttons(m: BusModel, buttons: u8)
    requires
        m.wf(),
    ensures
        m.io[0] & 0x30 == 0x20 ==> (BusModel { button_state: buttons, ..m }).read8(0xFF00) & 0x0F == !buttons & 0x0F,
        m.io[0] & 0x30 == 0x10 ==> (BusModel { button_state: buttons, ..m }).read8(0xFF00) & 0x0F == !(buttons >> 4u8)
            & 0x0F,
{
    let select = m.io[0];
    assert(((select & 0x30 == 0x20) ==> (select & 0x10 == 0 && select & 0x20 != 0)) && ((select & 0x30 == 0x10) ==> (
    select & 0x20 == 0 && select & 0x10 != 0)) && ((select & 0x30) | 0xC0 | ((0x0Fu8 & !(buttons & 0x0F)) & 0x0F)) & 0x0F
        == !buttons & 0x0F && ((select & 0x30) | 0xC0 | ((0x0Fu8 & !((buttons >> 4u8) & 0x0F)) & 0x0F)) & 0x0F == !(buttons
        >> 4u8) & 0x0F) by (bit_vector);
}

/// Any write to DIV resets it: it reads zero right after.
pub proof fn lemma_div_reset(m: BusModel, value: u8)
    requires
        m.wf(),
    ensures
        m.write8(0xFF04, value).read8(0xFF04) == 0,
        m.write8(0xFF04, value).wf(),
{
}

/// An OAM DMA transfer: after a write of `page` to 0xFF46, the 160 bytes of OAM read
/// what the 160 bytes from `page * 0x100` read before it.
pub proof fn lemma_oam_dma(m: BusModel, page: u8, i: int)
    requires
        m.wf(),
        0 <= i < OAM_SIZE,
    ensures
        m.write8(0xFF46, page).read8((0xFE00 + i) as u16) == m.read8((page as int * 0x100 + i) as u16),
{
    assert(((page as u16) << 8u16) as int == page as int * 0x100) by (bit_vector);
}

/// The CPU cannot change the mode and LY=LYC bits (0-2) of STAT.
pub proof fn lemma_stat_write_keeps_ppu_bits(m: BusModel, value: u8)
    requires
        m.wf(),
    ensures
        m.write8(0xFF41, value).read8(0xFF41) & 0x07 == m.read8(0xFF41) & 0x07,
{
    let a = m.io[0x41];
    assert(((a & 0x07) | (value & 0x78)) & 0x07 == a & 0x07) by (bit_vector);
}

/// The unusable area 0xFEA0-0xFEFF reads 0xFF and ignores writes.
pub proof fn lemma_unusable_area(m: BusModel, address: u16, value: u8)
    requires
        0xFEA0 <= address <= 0xFEFF,
    ensures
        m.read8(address) == 0xFF,
        m.write8(address, value) == m,
{
}

/// When TIMA overflows it reloads from TMA and requests the timer interrupt: with the
/// timer running and TIMA at 0xFF, cycles that bring exactly one increment leave TMA in
/// TIMA and set bit 2 of IF.
pub proof fn lemma_tima_overflow(m: BusModel, cycles: u32)
    requires
        m.wf(),
        m.io[0x07] & 0x04 != 0,
        m.io[0x05] == 0xFF,
        timer_period(m.io[0x07]) <= m.timer_counter + cycles < 2 * timer_period(m.io[0x07]),
    ensures
        m.tick_timer(cycles).read8(0xFF05) == m.read8(0xFF06),
        m.tick_timer(cycles).read8(0xFF0F) & 0x04 != 0,
{
    let freq = timer_period(m.io[0x07]) as int;
    let t = m.timer_counter + cycles;
    assert(t / freq == 1) by (nonlinear_arith)
        requires
            freq <= t < 2 * freq,
            freq > 0,
    ;
    assert(tima_after(0xFF, m.io[0x06], 1) == (m.io[0x06], true)) by {
        reveal_with_fuel(tima_after, 2);
    }
    let f = m.io[0x0F];
    assert((f | 0x04) & 0x04 != 0) by (bit_vector);
}

/// The TIMA rate: with the timer enabled, TAC clock select 0, 1, 2 and 3 count TIMA up
/// once every 1024, 16, 64 and 256 cycles. Cycles that carry the timer's count past one
/// period raise TIMA by one; fewer leave it as it was.
pub proof fn lemma_tima_period(m: BusModel, cycles: u32)
    requires
        m.wf(),
        m.io[0x07] & 0x04 != 0,
        m.io[0x05] < 0xFF,
        ({
            let sel = m.io[0x07] & 0x03;
            let period: int = if sel == 0 { 1024 } else if sel == 1 { 16 } else if sel == 2 { 64 } else { 256 };
            m.timer_counter + cycles < 2 * period
        }),
    ensures
        ({
            let sel = m.io[0x07] & 0x03;
            let period: int = if sel == 0 { 1024 } else if sel == 1 { 16 } else if sel == 2 { 64 } else { 256 };
            m.tick_timer(cycles).read8(0xFF05) == m.read8(0xFF05) + (if m.timer_counter + cycles >= period {
                1int
            } else {
                0int
            })
        }),
{
    let freq = timer_period(m.io[0x07]) as int;
    let t = m.timer_counter + cycles;
    let x = m.io[0x05];
    if t >= freq {
        assert(t / freq == 1) by (nonlinear_arith)
            requires
                freq <= t < 2 * freq,
                freq > 0,
        ;
        assert(tima_after(x, m.io[0x06], 1) == ((x + 1) as u8, false)) by {
            reveal_with_fuel(tima_after, 2);
        }
    } else {
        assert(t / freq == 0) by (nonlinear_arith)
            requires
                0 <= t < freq,
                freq > 0,
        ;
    }
}

} // verus!
