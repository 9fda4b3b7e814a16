//! Game Boy cartridges: header parsing and the ROM/RAM banking of the memory bank
//! controllers (ROM-only, MBC1 and MBC3).
use vstd::prelude::*;
use vstd::string::*;
use vstd::utf8::{valid_utf8, decode_utf8};
use crate::text::{decode_utf8_lossy, decimal, decimal_text, hex_fixed, hex_text, trim_chars, utf8_lossy};

verus! {

/// Minimum valid ROM size: two 16KB banks.
pub const MIN_ROM_SIZE: usize = 0x8000;
/// First byte of the title in the header.
pub const TITLE_START: usize = 0x0134;
/// Number of title bytes in the header.
pub const TITLE_LEN: usize = 0x10;
/// Header byte that names the cartridge type.
pub const CARTRIDGE_TYPE_ADDRESS: usize = 0x0147;
/// Header byte holding the Color Game Boy flag.
pub const CGB_FLAG_ADDRESS: usize = 0x0143;
/// Size of one cartridge RAM bank.
pub const RAM_BANK_SIZE: usize = 0x2000;
/// Number of RAM banks on cartridges that have RAM.
pub const MAX_RAM_BANKS: usize = 4;

/// The memory bank controllers this emulator supports.
#[derive(Debug, Clone, Copy, PartialEq, Eq, Structural)]
pub enum CartridgeKind {
    RomOnly,
    Mbc1,
    Mbc1Ram,
    Mbc1RamBattery,
    Mbc3TimerBattery,
    Mbc3Ram,
    Mbc3RamBattery,
}

impl CartridgeKind {
    pub open spec fn is_mbc1(self) -> bool {
        self is Mbc1 || self is Mbc1Ram || self is Mbc1RamBattery
    }

    pub open spec fn is_mbc3(self) -> bool {
        self is Mbc3TimerBattery || self is Mbc3Ram || self is Mbc3RamBattery
    }

    /// Whether the cartridge maps anything at 0xA000-0xBFFF.
    pub open spec fn has_ram_area(self) -> bool {
        !(self is RomOnly || self is Mbc1)
    }
}

/// The cartridge type byte of the header, decoded: the controller and whether it has a battery.
pub open spec fn kind_for_type(t: u8) -> Option<(CartridgeKind, bool)> {
    if t == 0x00 {
        Some((CartridgeKind::RomOnly, false))
    } else if t == 0x01 {
        Some((CartridgeKind::Mbc1, false))
    } else if t == 0x02 {
        Some((CartridgeKind::Mbc1Ram, false))
    } else if t == 0x03 {
        Some((CartridgeKind::Mbc1RamBattery, true))
    } else if t == 0x0F {
        Some((CartridgeKind::Mbc3TimerBattery, true))
    } else if t == 0x11 || t == 0x12 {
        Some((CartridgeKind::Mbc3Ram, false))
    } else if t == 0x13 {
        Some((CartridgeKind::Mbc3RamBattery, true))
    } else {
        None
    }
}

/// Bytes of RAM a cartridge of this kind carries.
pub open spec fn ram_size_for(kind: CartridgeKind) -> nat {
    match kind {
        CartridgeKind::Mbc1Ram | CartridgeKind::Mbc1RamBattery | CartridgeKind::Mbc3Ram
        | CartridgeKind::Mbc3RamBattery => 0x8000,
        _ => 0,
    }
}

/// Index of the first zero byte at or after `i`, or the length if there is none.
pub open spec fn first_zero_from(s: Seq<u8>, i: int) -> int
    decreases s.len() - i,
{
    if i >= s.len() {
        s.len() as int
    } else if i >= 0 && s[i] == 0 {
        i
    } else {
        first_zero_from(s, i + 1)
    }
}

/// The title bytes of the header, up to the first zero byte.
pub open spec fn raw_title(rom: Seq<u8>) -> Seq<u8> {
    let field = rom.subrange(TITLE_START as int, (TITLE_START + TITLE_LEN) as int);
    field.take(first_zero_from(field, 0))
}

/// The title made of decoded header text: the text trimmed, or "UNKNOWN" when that is
/// empty.
pub open spec fn title_text(decoded: Seq<char>) -> Seq<char> {
    let t = trim_chars(decoded);
    if t.len() == 0 {
        "UNKNOWN"@
    } else {
        t
    }
}

/// The title a header holds: its bytes decoded and trimmed, or "UNKNOWN" when that is empty.
pub open spec fn header_title(rom: Seq<u8>) -> Seq<char> {
    title_text(utf8_lossy(raw_title(rom)))
}

/// The title of decoded header text: the text trimmed, or "UNKNOWN" when that is empty.
pub fn title_from_text(decoded: &str) -> (title: String)
    ensures
        title@ == title_text(decoded@),
{
    let trimmed: &str = decoded.trim();
    if trimmed.is_empty() {
        String::from_str("UNKNOWN")
    } else {
        trimmed.to_owned()
    }
}

/// A cartridge as a value.
pub struct CartridgeModel {
    pub rom: Seq<u8>,
    pub title: Seq<char>,
    pub kind: CartridgeKind,
    pub ram: Seq<u8>,
    pub rom_bank: u8,
    pub ram_bank: u8,
    pub banking_mode: u8,
    pub ram_enabled: bool,
    pub rtc_selected: bool,
    pub has_battery: bool,
    pub is_cgb: bool,
}

/// The byte at `i`, or 0xFF past the end: what an open bus reads.
pub open spec fn byte_or_ff(s: Seq<u8>, i: int) -> u8 {
    if 0 <= i < s.len() {
        s[i]
    } else {
        0xFF
    }
}

impl CartridgeModel {
    /// The ROM bank mapped at 0x4000-0x7FFF.
    pub open spec fn current_rom_bank(self) -> u8 {
        if self.kind is RomOnly {
            1
        } else if self.kind.is_mbc1() {
            let low = self.rom_bank & 0x1F;
            let bank: u8 = if low == 0 { 1 } else { low };
            if self.banking_mode == 0 {
                bank | ((self.ram_bank & 0x03) << 5u8)
            } else {
                bank
            }
        } else {
            let low = self.rom_bank & 0x7F;
            if low == 0 { 1 } else { low }
        }
    }

    /// The RAM bank mapped at 0xA000-0xBFFF.
    pub open spec fn current_ram_bank(self) -> u8 {
        if self.kind is RomOnly {
            0
        } else if self.kind.is_mbc1() {
            if self.banking_mode == 0 { 0 } else { self.ram_bank & 0x03 }
        } else {
            self.ram_bank & 0x03
        }
    }

    /// What a read of `address` in 0x0000-0x7FFF returns.
    pub open spec fn read_rom(self, address: u16) -> u8 {
        if self.kind is RomOnly || address <= 0x3FFF {
            byte_or_ff(self.rom, address as int)
        } else if address <= 0x7FFF {
            byte_or_ff(self.rom, self.current_rom_bank() * 0x4000 + (address - 0x4000))
        } else {
            0xFF
        }
    }

    /// The cartridge after a write of `value` to `address` in 0x0000-0x7FFF.
    pub open spec fn write_rom(self, address: u16, value: u8) -> CartridgeModel {
        if self.kind.is_mbc1() || self.kind.is_mbc3() {
            if address <= 0x1FFF {
                CartridgeModel { ram_enabled: (value & 0x0F) == 0x0A, ..self }
            } else if address <= 0x3FFF {
                let bank = if self.kind.is_mbc1() { value & 0x1F } else { value & 0x7F };
                CartridgeModel { rom_bank: if bank == 0 { 1 } else { bank }, ..self }
            } else if address <= 0x5FFF {
                if self.kind.is_mbc1() {
                    CartridgeModel { ram_bank: value & 0x03, ..self }
                } else {
                    CartridgeModel {
                        ram_bank: value & 0x03,
                        rtc_selected: self.kind is Mbc3TimerBattery && 0x08 <= value <= 0x0C,
                        ..self
                    }
                }
            } else if address <= 0x7FFF && self.kind.is_mbc1() {
                CartridgeModel { banking_mode: value & 0x01, ..self }
            } else {
                self
            }
        } else {
            self
        }
    }

    /// Offset into RAM of `address` in the current RAM bank.
    pub open spec fn ram_offset(self, address: u16) -> int {
        self.current_ram_bank() * RAM_BANK_SIZE + (address - 0xA000)
    }

    /// Whether a read or write of 0xA000-0xBFFF reaches the cartridge's RAM or clock.
    pub open spec fn ram_area_active(self) -> bool {
        self.kind.has_ram_area() && self.ram_enabled
    }

    /// What a read of `address` in 0xA000-0xBFFF returns.
    pub open spec fn read_ram(self, address: u16) -> u8 {
        if !self.ram_area_active() {
            0xFF
        } else if self.kind.is_mbc3() && self.rtc_selected {
            0x00
        } else {
            byte_or_ff(self.ram, self.ram_offset(address))
        }
    }

    /// The cartridge after a write of `value` to `address` in 0xA000-0xBFFF.
    pub open spec fn write_ram(self, address: u16, value: u8) -> CartridgeModel {
        if !self.ram_area_active() || (self.kind.is_mbc3() && self.rtc_selected) {
            self
        } else {
            let off = self.ram_offset(address);
            if 0 <= off < self.ram.len() {
                CartridgeModel { ram: self.ram.update(off, value), ..self }
            } else {
                self
            }
        }
    }
}

/// A Game Boy cartridge: ROM, optional RAM, and its controller's banking registers.
#[derive(Debug)]
pub struct Cartridge {
    rom: Vec<u8>,
    title: String,
    kind: CartridgeKind,
    ram: Vec<u8>,
    rom_bank: u8,
    ram_bank: u8,
    banking_mode: u8,
    ram_enabled: bool,
    rtc_selected: bool,
    has_battery: bool,
    is_cgb: bool,
}

impl View for Cartridge {
    type V = CartridgeModel;

    closed spec fn view(&self) -> CartridgeModel {
        CartridgeModel {
            rom: self.rom@,
            title: self.title@,
            kind: self.kind,
            ram: self.ram@,
            rom_bank: self.rom_bank,
            ram_bank: self.ram_bank,
            banking_mode: self.banking_mode,
            ram_enabled: self.ram_enabled,
            rtc_selected: self.rtc_selected,
            has_battery: self.has_battery,
            is_cgb: self.is_cgb,
        }
    }
}

/// The cartridge that `Cartridge::from_rom` makes of a ROM with a supported type.
pub open spec fn initial_cartridge(rom: Seq<u8>, kind: CartridgeKind, has_battery: bool) -> CartridgeModel {
    CartridgeModel {
        rom,
        title: header_title(rom),
        kind,
        ram: Seq::new(ram_size_for(kind), |i: int| 0u8),
        rom_bank: 1,
        ram_bank: 0,
        banking_mode: 0,
        ram_enabled: false,
        rtc_selected: false,
        has_battery,
        is_cgb: (rom[CGB_FLAG_ADDRESS as int] & 0x80) != 0,
    }
}

/// Errors that can occur during cartridge operations.
#[derive(Debug, Clone, PartialEq, Eq)]
pub enum CartridgeError {
    /// The ROM is too small to be valid.
    RomTooSmall { found: usize, minimum: usize },
    /// The cartridge type is not supported by this emulator.
    UnsupportedCartridgeType(u8),
    /// Saving the game to a file failed.
    SaveError { path: String, error: String },
}

impl CartridgeError {
    /// The text shown for the error.
    pub open spec fn text(self) -> Seq<char> {
        match self {
            CartridgeError::RomTooSmall { found, minimum } => "ROM too small: found "@ + decimal(
                found as nat,
            ) + " bytes, expected at least "@ + decimal(minimum as nat) + " bytes"@,
            CartridgeError::UnsupportedCartridgeType(value) => "unsupported cartridge type 0x"@
                + hex_fixed(value as nat, 2) + " (ROM-only, MBC1, and MBC3 are supported)"@,
            CartridgeError::SaveError { path, error } => "failed to save game to '"@ + path@
                + "': "@ + error@,
        }
    }

    /// The text shown for the error.
    pub fn message(&self) -> (s: String)
        ensures
            s@ == self.text(),
    {
        match self {
            CartridgeError::RomTooSmall { found, minimum } => {
                let mut s = String::from_str("ROM too small: found ");
                s.append(decimal_text(*found as u64).as_str());
                s.append(" bytes, expected at least ");
                s.append(decimal_text(*minimum as u64).as_str());
                s.append(" bytes");
                s
            },
            CartridgeError::UnsupportedCartridgeType(value) => {
                let mut s = String::from_str("unsupported cartridge type 0x");
                s.append(hex_text(*value as u64, 2).as_str());
                s.append(" (ROM-only, MBC1, and MBC3 are supported)");
                s
            },
            CartridgeError::SaveError { path, error } => {
                let mut s = String::from_str("failed to save game to '");
                s.append(path.as_str());
                s.append("': ");
                s.append(error.as_str());
                s
            },
        }
    }
}

/// What `Cartridge::from_rom` returns for a ROM, apart from the title text.
pub open spec fn from_rom_outcome(rom: Seq<u8>, r: Result<Cartridge, CartridgeError>) -> bool {
    if rom.len() < MIN_ROM_SIZE {
        r == Err::<Cartridge, CartridgeError>(
            CartridgeError::RomTooSmall { found: rom.len() as usize, minimum: MIN_ROM_SIZE },
        )
    } else {
        match kind_for_type(rom[CARTRIDGE_TYPE_ADDRESS as int]) {
            None => r == Err::<Cartridge, CartridgeError>(
                CartridgeError::UnsupportedCartridgeType(rom[CARTRIDGE_TYPE_ADDRESS as int]),
            ),
            Some((kind, battery)) => r matches Ok(c) && c@ == initial_cartridge(rom, kind, battery),
        }
    }
}

/// A file to write so that battery-backed RAM outlives the process.
pub struct SaveFile {
    pub path: String,
    pub data: Vec<u8>,
}

impl Cartridge {
    /// Reads the 16 title bytes of the header up to the first zero byte.
    fn read_raw_title(rom: &Vec<u8>) -> (t: Vec<u8>)
        requires
            rom.len() >= MIN_ROM_SIZE,
        ensures
            t@ == raw_title(rom@),
    {
        let ghost field = rom@.subrange(TITLE_START as int, (TITLE_START + TITLE_LEN) as int);
        let mut t: Vec<u8> = Vec::new();
        let mut i: usize = 0;
        while i < TITLE_LEN
            invariant
                rom.len() >= MIN_ROM_SIZE,
                field == rom@.subrange(TITLE_START as int, (TITLE_START + TITLE_LEN) as int),
                i <= TITLE_LEN,
                t@ == field.take(i as int),
                first_zero_from(field, 0) == first_zero_from(field, i as int),
            decreases TITLE_LEN - i,
        {
            let b = rom[TITLE_START + i];
            assert(b == field[i as int]);
            if b == 0 {
                assert(first_zero_from(field, i as int) == i);
                return t;
            }
            t.push(b);
            assert(t@ =~= field.take(i + 1));
            i = i + 1;
        }
        assert(first_zero_from(field, TITLE_LEN as int) == TITLE_LEN);
        assert(field.take(TITLE_LEN as int) =~= field);
        t
    }

    /// Decodes the header title, falling back to "UNKNOWN" when it is blank.
    pub fn parse_title(rom: &Vec<u8>) -> (title: String)
        requires
            rom.len() >= MIN_ROM_SIZE,
        ensures
            title@ == header_title(rom@),
            valid_utf8(raw_title(rom@)) ==> title@ == title_text(decode_utf8(raw_title(rom@))),
    {
        let raw = Cartridge::read_raw_title(rom);
        let decoded = decode_utf8_lossy(raw.as_slice());
        title_from_text(decoded.as_str())
    }

    /// Creates a cartridge from ROM data, decoding the header.
    ///
    /// Fails when the ROM is shorter than 32KB or its type byte names an unsupported
    /// controller. Battery-backed RAM starts zeroed; `load_ram` restores saved contents.
    pub fn from_rom(rom: Vec<u8>) -> (r: Result<Self, CartridgeError>)
        ensures
            from_rom_outcome(rom@, r),
            r is Ok && valid_utf8(raw_title(rom@)) ==> r->Ok_0@.title == title_text(decode_utf8(raw_title(rom@))),
    {
        if rom.len() < MIN_ROM_SIZE {
            return Err(CartridgeError::RomTooSmall { found: rom.len(), minimum: MIN_ROM_SIZE });
        }
        let cartridge_type = rom[CARTRIDGE_TYPE_ADDRESS];
        let (kind, has_battery) = match cartridge_type {
            0x00 => (CartridgeKind::RomOnly, false),
            0x01 => (CartridgeKind::Mbc1, false),
            0x02 => (CartridgeKind::Mbc1Ram, false),
            0x03 => (CartridgeKind::Mbc1RamBattery, true),
            0x0F => (CartridgeKind::Mbc3TimerBattery, true),
            0x11 => (CartridgeKind::Mbc3Ram, false),
            0x12 => (CartridgeKind::Mbc3Ram, false),
            0x13 => (CartridgeKind::Mbc3RamBattery, true),
            _ => {
                return Err(CartridgeError::UnsupportedCartridgeType(cartridge_type));
            },
        };
        let title = Cartridge::parse_title(&rom);
        let ram_size: usize = match kind {
            CartridgeKind::Mbc1Ram | CartridgeKind::Mbc1RamBattery | CartridgeKind::Mbc3Ram
            | CartridgeKind::Mbc3RamBattery => RAM_BANK_SIZE * MAX_RAM_BANKS,
            _ => 0,
        };
        let ram: Vec<u8> = vec![0u8; ram_size];
        let is_cgb = (rom[CGB_FLAG_ADDRESS] & 0x80) != 0;
        let cartridge = Cartridge {
            rom,
            title,
            kind,
            ram,
            rom_bank: 1,
            ram_bank: 0,
            banking_mode: 0,
            ram_enabled: false,
            rtc_selected: false,
            has_battery,
            is_cgb,
        };
        assert(cartridge@.ram =~= Seq::new(ram_size_for(kind), |i: int| 0u8));
        Ok(cartridge)
    }

    /// The ROM bank mapped at 0x4000-0x7FFF.
    fn current_rom_bank(&self) -> (b: u8)
        ensures
            b == self@.current_rom_bank(),
    {
        match self.kind {
            CartridgeKind::RomOnly => 1,
            CartridgeKind::Mbc1 | CartridgeKind::Mbc1Ram | CartridgeKind::Mbc1RamBattery => {
                let mut bank = self.rom_bank & 0x1F;
                if bank == 0 {
                    bank = 1;
                }
                if self.banking_mode == 0 {
                    bank = bank | ((self.ram_bank & 0x03) << 5u8);
                }
                bank
            },
            _ => {
                let mut bank = self.rom_bank & 0x7F;
                if bank == 0 {
                    bank = 1;
                }
                bank
            },
        }
    }

    /// The RAM bank mapped at 0xA000-0xBFFF.
    fn current_ram_bank(&self) -> (b: u8)
        ensures
            b == self@.current_ram_bank(),
            b <= 3,
    {
        match self.kind {
            CartridgeKind::RomOnly => 0,
            CartridgeKind::Mbc1 | CartridgeKind::Mbc1Ram | CartridgeKind::Mbc1RamBattery => {
                if self.banking_mode == 0 {
                    0
                } else {
                    proof { crate::bits::lemma_and_le_u8(self.ram_bank, 0x03); }
                    self.ram_bank & 0x03
                }
            },
            _ => {
                proof { crate::bits::lemma_and_le_u8(self.ram_bank, 0x03); }
                self.ram_bank & 0x03
            },
        }
    }

    /// Reads a byte of ROM at 0x0000-0x7FFF, through the controller's banking.
    pub fn read_rom(&self, address: u16) -> (v: u8)
        ensures
            v == self@.read_rom(address),
    {
        let idx: usize = if matches!(self.kind, CartridgeKind::RomOnly) || address <= 0x3FFF {
            address as usize
        } else if address <= 0x7FFF {
            let bank = self.current_rom_bank();
            bank as usize * 0x4000 + (address - 0x4000) as usize
        } else {
            return 0xFF;
        };
        if idx < self.rom.len() {
            self.rom[idx]
        } else {
            0xFF
        }
    }

    /// Handles a write to 0x0000-0x7FFF, which sets the controller's registers.
    pub fn write_rom(&mut self, address: u16, value: u8)
        ensures
            final(self)@ == old(self)@.write_rom(address, value),
    {
        let mbc1 = matches!(self.kind, CartridgeKind::Mbc1 | CartridgeKind::Mbc1Ram | CartridgeKind::Mbc1RamBattery);
        let mbc3 = matches!(self.kind, CartridgeKind::Mbc3TimerBattery | CartridgeKind::Mbc3Ram | CartridgeKind::Mbc3RamBattery);
        if !(mbc1 || mbc3) {
            return;
        }
        if address <= 0x1FFF {
            self.ram_enabled = (value & 0x0F) == 0x0A;
        } else if address <= 0x3FFF {
            let bank = if mbc1 { value & 0x1F } else { value & 0x7F };
            self.rom_bank = if bank == 0 { 1 } else { bank };
        } else if address <= 0x5FFF {
            self.ram_bank = value & 0x03;
            if mbc3 {
                let timer = matches!(self.kind, CartridgeKind::Mbc3TimerBattery);
                self.rtc_selected = timer && 0x08 <= value && value <= 0x0C;
            }
        } else if address <= 0x7FFF && mbc1 {
            self.banking_mode = value & 0x01;
        }
    }

    /// Reads a byte at 0xA000-0xBFFF: cartridge RAM, or 0xFF when there is none or it is disabled.
    pub fn read_ram(&self, address: u16) -> (v: u8)
        requires
            self@.ram_area_active() ==> 0xA000 <= address,
        ensures
            v == self@.read_ram(address),
    {
        let has_ram_area = !matches!(self.kind, CartridgeKind::RomOnly | CartridgeKind::Mbc1);
        if !has_ram_area || !self.ram_enabled {
            return 0xFF;
        }
        let mbc3 = matches!(self.kind, CartridgeKind::Mbc3TimerBattery | CartridgeKind::Mbc3Ram | CartridgeKind::Mbc3RamBattery);
        if mbc3 && self.rtc_selected {
            return 0x00;
        }
        let bank = self.current_ram_bank();
        let offset = bank as usize * RAM_BANK_SIZE + (address - 0xA000) as usize;
        if offset < self.ram.len() {
            self.ram[offset]
        } else {
            0xFF
        }
    }

    /// Writes a byte at 0xA000-0xBFFF to cartridge RAM, when it is present and enabled.
    pub fn write_ram(&mut self, address: u16, value: u8)
        requires
            old(self)@.ram_area_active() ==> 0xA000 <= address,
        ensures
            final(self)@ == old(self)@.write_ram(address, value),
    {
        let has_ram_area = !matches!(self.kind, CartridgeKind::RomOnly | CartridgeKind::Mbc1);
        if !has_ram_area || !self.ram_enabled {
            return;
        }
        let mbc3 = matches!(self.kind, CartridgeKind::Mbc3TimerBattery | CartridgeKind::Mbc3Ram | CartridgeKind::Mbc3RamBattery);
        if mbc3 && self.rtc_selected {
            return;
        }
        let bank = self.current_ram_bank();
        let offset = bank as usize * RAM_BANK_SIZE + (address - 0xA000) as usize;
        if offset < self.ram.len() {
            self.ram[offset] = value;
        }
    }

    /// The game title from the header.
    pub fn title(&self) -> (t: &str)
        ensures
            t@ == self@.title,
    {
        self.title.as_str()
    }

    /// Whether the cartridge keeps its RAM with a battery.
    pub fn has_battery(&self) -> (b: bool)
        ensures
            b == self@.has_battery,
    {
        self.has_battery
    }

    /// Whether the header marks the game as Color Game Boy compatible.
    pub fn is_cgb(&self) -> (b: bool)
        ensures
            b == self@.is_cgb,
    {
        self.is_cgb
    }

    /// The contents of cartridge RAM.
    pub fn ram(&self) -> (r: &Vec<u8>)
        ensures
            r@ == self@.ram,
    {
        &self.ram
    }

    /// Restores cartridge RAM from saved data of the same size; other data is ignored.
    pub fn load_ram(&mut self, data: &Vec<u8>) -> (loaded: bool)
        ensures
            loaded == (data.len() == old(self)@.ram.len()),
            final(self)@ == (if loaded { CartridgeModel { ram: data@, ..old(self)@ } } else { old(self)@ }),
    {
        if data.len() != self.ram.len() {
            return false;
        }
        self.ram = data.clone();
        true
    }

    /// Where battery-backed RAM is saved and restored from: `{title}.sav`, or nothing when
    /// the cartridge has no battery or no RAM.
    pub fn save_path(&self) -> (p: Option<String>)
        ensures
            p is Some <==> (self@.has_battery && self@.ram.len() > 0),
            p matches Some(path) ==> path@ == self@.title + ".sav"@,
    {
        if !self.has_battery || self.ram.len() == 0 {
            return None;
        }
        let mut path = self.title.clone();
        path.append(".sav");
        Some(path)
    }

    /// Restores battery-backed RAM from a save file's contents: only a cartridge with a
    /// battery and RAM takes them, and only when they are exactly the RAM's size.
    pub fn load_save_file(&mut self, data: &Vec<u8>) -> (loaded: bool)
        ensures
            loaded == (old(self)@.has_battery && old(self)@.ram.len() > 0 && data@.len() == old(self)@.ram.len()),
            final(self)@ == (if loaded { CartridgeModel { ram: data@, ..old(self)@ } } else { old(self)@ }),
    {
        if !self.has_battery || self.ram.len() == 0 {
            return false;
        }
        self.load_ram(data)
    }

    /// The save file for battery-backed RAM: `{title}.sav` with the RAM contents, or nothing
    /// when the cartridge has no battery or no RAM.
    pub fn save_game(&self) -> (f: Option<SaveFile>)
        ensures
            f is Some <==> (self@.has_battery && self@.ram.len() > 0),
            f matches Some(s) ==> s.path@ == self@.title + ".sav"@ && s.data@ == self@.ram,
    {
        if !self.has_battery || self.ram.len() == 0 {
            return None;
        }
        let mut path = self.title.clone();
        path.append(".sav");
        Some(SaveFile { path, data: self.ram.clone() })
    }
}


/// With the RAM area enabled and mapped to RAM (not the MBC3 clock), a byte written to
/// 0xA000-0xBFFF reads back as written, where the current bank holds it.
pub proof fn lemma_ram_write_read(c: CartridgeModel, address: u16, value: u8)
    requires
        0xA000 <= address <= 0xBFFF,
        c.ram_area_active(),
        !(c.kind.is_mbc3() && c.rtc_selected),
        0 <= c.ram_offset(address) < c.ram.len(),
    ensures
        c.write_ram(address, value).read_ram(address) == value,
{
}

/// With the RAM area disabled, writes to it change nothing and reads give 0xFF.
pub proof fn lemma_ram_disabled(c: CartridgeModel, address: u16, value: u8)
    requires
        !c.ram_area_active(),
    ensures
        c.write_ram(address, value) == c,
        c.read_ram(address) == 0xFF,
{
}

/// With an MBC3 clock register selected, the RAM area reads 0 and ignores writes.
pub proof fn lemma_rtc_reads_zero(c: CartridgeModel, address: u16, value: u8)
    requires
        c.ram_area_active(),
        c.kind.is_mbc3(),
        c.rtc_selected,
    ensures
        c.write_ram(address, value) == c,
        c.read_ram(address) == 0,
{
}

/// Only the MBC3 with a clock (type 0x0F) maps clock registers: on the MBC3 RAM
/// cartridges a write to 0x4000-0x5FFF selects RAM bank `value & 3`, whatever the value.
pub proof fn lemma_mbc3_ram_bank_select(c: CartridgeModel, address: u16, value: u8)
    requires
        c.kind is Mbc3Ram || c.kind is Mbc3RamBattery,
        0x4000 <= address <= 0x5FFF,
    ensures
        !c.write_rom(address, value).rtc_selected,
        c.write_rom(address, value).ram_bank == value & 0x03,
{
}

/// A cartridge booted from a ROM and then given a save file: its RAM (32KB on the RAM
/// cartridges, none otherwise) is the save file's contents when the cartridge has a
/// battery and the file is exactly the RAM's size, and stays zeroed otherwise; the save
/// file is looked for at `{title}.sav`.
pub proof fn lemma_boot_with_save(rom: Seq<u8>, save: Seq<u8>)
    requires
        rom.len() >= MIN_ROM_SIZE,
        kind_for_type(rom[CARTRIDGE_TYPE_ADDRESS as int]) is Some,
    ensures
        ({
            let (kind, battery) = kind_for_type(rom[CARTRIDGE_TYPE_ADDRESS as int]).unwrap();
            let c = initial_cartridge(rom, kind, battery);
            let loaded = c.has_battery && c.ram.len() > 0 && save.len() == c.ram.len();
            let ram_kind = kind is Mbc1Ram || kind is Mbc1RamBattery || kind is Mbc3Ram || kind is Mbc3RamBattery;
            &&& c.ram.len() == (if ram_kind { 0x8000nat } else { 0 })
            &&& loaded == (battery && ram_kind && save.len() == 0x8000)
            &&& (if loaded { CartridgeModel { ram: save, ..c } } else { c }).ram == (if loaded {
                save
            } else {
                Seq::new(c.ram.len(), |i: int| 0u8)
            })
            &&& c.title + ".sav"@ == header_title(rom) + ".sav"@
        }),
{
}

/// Writing 0x0A to 0x0000-0x1FFF enables an MBC's RAM area, and other values with low
/// nibble not 0xA disable it.
pub proof fn lemma_ram_enable(c: CartridgeModel, address: u16, value: u8)
    requires
        c.kind.is_mbc1() || c.kind.is_mbc3(),
        address <= 0x1FFF,
    ensures
        c.write_rom(address, value).ram_enabled == (value & 0x0F == 0x0A),
{
}

/// On an MBC1, selecting ROM bank `value` at 0x2000-0x3FFF maps its low 5 bits (0 meaning
/// 1) into the low bits of the bank at 0x4000-0x7FFF.
pub proof fn lemma_mbc1_rom_bank(c: CartridgeModel, address: u16, value: u8)
    requires
        c.kind.is_mbc1(),
        0x2000 <= address <= 0x3FFF,
    ensures
        c.write_rom(address, value).current_rom_bank() & 0x1F == (if value & 0x1F == 0 { 1 } else { value & 0x1F }),
{
    let b = value & 0x1F;
    let bank: u8 = if b == 0 { 1 } else { b };
    let hi = c.ram_bank & 0x03;
    crate::bits::lemma_and_le_u8(c.ram_bank, 0x03);
    assert(b <= 0x1F && (b & 0x1F) == b) by (bit_vector)
        requires
            b == value & 0x1F,
    ;
    assert((bank | (hi << 5u8)) & 0x1F == bank && bank & 0x1F == bank) by (bit_vector)
        requires
            bank <= 0x1F,
            hi <= 3,
    ;
}

/// MBC1 ROM banking in its default mode: after bank number `v` is written to
/// 0x2000-0x3FFF and `u` to 0x4000-0x5FFF, in either order, 0x4000-0x7FFF reads ROM bank
/// `(v & 0x1F, or 1 for 0) | (u & 3) << 5`, while 0x0000-0x3FFF reads bank 0.
pub proof fn lemma_mbc1_banked_read(c: CartridgeModel, a1: u16, v: u8, a2: u16, u: u8, address: u16)
    requires
        c.kind.is_mbc1(),
        c.banking_mode == 0,
        0x2000 <= a1 <= 0x3FFF,
        0x4000 <= a2 <= 0x5FFF,
        address <= 0x7FFF,
    ensures
        ({
            let low = v & 0x1F;
            let bank: u8 = (if low == 0 { 1u8 } else { low }) | ((u & 0x03) << 5u8);
            let expected = if address <= 0x3FFF {
                byte_or_ff(c.rom, address as int)
            } else {
                byte_or_ff(c.rom, bank * 0x4000 + (address - 0x4000))
            };
            &&& c.write_rom(a1, v).write_rom(a2, u).read_rom(address) == expected
            &&& c.write_rom(a2, u).write_rom(a1, v).read_rom(address) == expected
        }),
{
    let low = v & 0x1F;
    let b1: u8 = if low == 0 { 1u8 } else { low };
    let hi = u & 0x03;
    assert(low <= 0x1F && (b1 <= 0x1F ==> b1 & 0x1F == b1) && hi & 0x03 == hi && hi <= 3) by (bit_vector)
        requires
            low == v & 0x1F,
            hi == u & 0x03,
            b1 == (if low == 0 { 1u8 } else { low }),
    ;
}

/// MBC3 ROM banking: once bank number `v` is written to 0x2000-0x3FFF, 0x4000-0x7FFF
/// reads ROM bank `v mod 128` (all seven bank bits, with 0 selecting bank 1), so
/// 0x4000 + o reads ROM byte `bank * 0x4000 + o`, while 0x0000-0x3FFF still reads bank 0.
pub proof fn lemma_mbc3_banked_read(c: CartridgeModel, a1: u16, v: u8, address: u16)
    requires
        c.kind.is_mbc3(),
        0x2000 <= a1 <= 0x3FFF,
        address <= 0x7FFF,
    ensures
        ({
            let bank: int = if v % 128 == 0 { 1 } else { (v % 128) as int };
            c.write_rom(a1, v).read_rom(address) == (if address <= 0x3FFF {
                byte_or_ff(c.rom, address as int)
            } else {
                byte_or_ff(c.rom, bank * 0x4000 + (address - 0x4000))
            })
        }),
{
    crate::bits::lemma_u8_fields(v);
    let low = v & 0x7F;
    let b: u8 = if low == 0 { 1 } else { low };
    crate::bits::lemma_u8_fields(b);
    assert(c.write_rom(a1, v).rom_bank == b);
    assert(c.write_rom(a1, v).current_rom_bank() == b);
}

} // verus!
