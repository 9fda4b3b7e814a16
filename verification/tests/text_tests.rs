use gb_gba_emu::gb::cartridge::CartridgeError;
use gb_gba_emu::gb::cpu::CpuError;
use gb_gba_emu::gb::GameBoyError;
use gb_gba_emu::text::{decimal_text, hex_text};

#[test]
fn decimal_text_has_no_leading_zeros() {
    assert_eq!(decimal_text(0), "0");
    assert_eq!(decimal_text(7), "7");
    assert_eq!(decimal_text(1337), "1337");
    assert_eq!(decimal_text(65535), "65535");
    assert_eq!(decimal_text(u64::MAX), "18446744073709551615");
}

#[test]
fn hex_text_pads_to_the_width() {
    assert_eq!(hex_text(0x0A, 2), "0A");
    assert_eq!(hex_text(0xFF, 2), "FF");
    assert_eq!(hex_text(0x1C3, 4), "01C3");
    assert_eq!(hex_text(0x1234, 2), "34");
    assert_eq!(hex_text(5, 0), "");
}

#[test]
fn cartridge_error_messages() {
    let small = CartridgeError::RomTooSmall { found: 256, minimum: 0x8000 };
    assert_eq!(small.message(), "ROM too small: found 256 bytes, expected at least 32768 bytes");
    let kind = CartridgeError::UnsupportedCartridgeType(0x1F);
    assert_eq!(kind.message(), "unsupported cartridge type 0x1F (ROM-only, MBC1, and MBC3 are supported)");
    let save = CartridgeError::SaveError { path: "GAME.sav".to_string(), error: "denied".to_string() };
    assert_eq!(save.message(), "failed to save game to 'GAME.sav': denied");
}

#[test]
fn core_error_messages_name_the_part() {
    let cpu = CpuError::UnimplementedOpcode { opcode: 0xD3, address: 0x0150 };
    assert_eq!(cpu.message(), "unimplemented opcode 0xD3 at address 0x0150");
    assert_eq!(GameBoyError::Cpu(cpu).message(), "cpu error: unimplemented opcode 0xD3 at address 0x0150");
    let cart = GameBoyError::Cartridge(CartridgeError::UnsupportedCartridgeType(0x10));
    assert_eq!(
        cart.message(),
        "cartridge error: unsupported cartridge type 0x10 (ROM-only, MBC1, and MBC3 are supported)"
    );
}
