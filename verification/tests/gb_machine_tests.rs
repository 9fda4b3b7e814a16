use gb_gba_emu::gb::cartridge::CartridgeError;
use gb_gba_emu::gb::{GameBoy, GameBoyError};

const ROM_SIZE: usize = 0x8000;

fn make_rom(program: &[u8], cartridge_type: u8, title: &str) -> Vec<u8> {
    let mut rom = vec![0; ROM_SIZE];
    rom[0x0147] = cartridge_type;
    let title_bytes = title.as_bytes();
    let title_len = title_bytes.len().min(0x10);
    rom[0x0134..0x0134 + title_len].copy_from_slice(&title_bytes[..title_len]);
    let entry_point = 0x0100usize;
    let program_len = program.len().min(ROM_SIZE - entry_point);
    rom[entry_point..entry_point + program_len].copy_from_slice(&program[..program_len]);
    rom
}

#[test]
fn loads_rom_only_cartridge_and_title() {
    let rom = make_rom(&[0x00], 0x00, "POKEMON");
    let game_boy = GameBoy::from_rom_bytes(rom).unwrap();

    assert_eq!(game_boy.title(), "POKEMON");
    assert_eq!(game_boy.pc(), 0x0100);
}

#[test]
fn rejects_unsupported_cartridge_type() {
    let rom = make_rom(&[0x00], 0x10, "BADTYPE");
    let error = GameBoy::from_rom_bytes(rom).unwrap_err();

    match error {
        GameBoyError::Cartridge(CartridgeError::UnsupportedCartridgeType(value)) => {
            assert_eq!(value, 0x10);
        }
        _ => panic!("expected unsupported cartridge type error"),
    }
}

#[test]
fn steps_nop_program_deterministically() {
    let rom = make_rom(&[0x00, 0x00, 0x00, 0x00], 0x00, "NOPS");
    let mut game_boy = GameBoy::from_rom_bytes(rom).unwrap();
    let stats = game_boy.run_steps(4).unwrap();

    assert_eq!(stats.instructions, 4);
    assert_eq!(stats.cycles, 16);
    assert_eq!(game_boy.pc(), 0x0104);
}

#[test]
fn supports_immediate_load_and_memory_roundtrip() {
    let rom = make_rom(
        &[
            0x3E, 0x42, // LD A,$42
            0xEA, 0x00, 0xC0, // LD ($C000),A
            0x3E, 0x00, // LD A,$00
            0xFA, 0x00, 0xC0, // LD A,($C000)
            0x76, // HALT
        ],
        0x00,
        "ROUNDTRIP",
    );
    let mut game_boy = GameBoy::from_rom_bytes(rom).unwrap();
    let stats = game_boy.run_steps(10).unwrap();

    assert_eq!(stats.instructions, 5);
    assert_eq!(stats.cycles, 52);
    assert!(stats.halted);
    assert_eq!(game_boy.registers().a, 0x42);
}

#[test]
fn supports_mbc1_rom_bank_switching() {
    let mut rom = make_rom(&[0x00], 0x01, "BANKING");
    let switch_bank_program = [
        0x3E, 0x01, // LD A,$01
        0xEA, 0x00, 0x20, // LD ($2000),A
        0xFA, 0x00, 0x40, // LD A,($4000)
        0x76, // HALT
    ];
    let bank1_data = 0x99;
    rom[0x0100..0x0100 + switch_bank_program.len()].copy_from_slice(&switch_bank_program);
    rom[0x4000] = bank1_data;

    let mut game_boy = GameBoy::from_rom_bytes(rom).unwrap();
    let stats = game_boy.run_steps(5).unwrap();

    assert_eq!(stats.instructions, 4);
    assert!(stats.halted);
    assert_eq!(game_boy.registers().a, bank1_data);
}

#[test]
fn supports_battery_backed_cartridge_detection() {
    let rom = make_rom(&[0x00], 0x03, "BATTERYTEST");
    let game_boy = GameBoy::from_rom_bytes(rom).unwrap();

    assert!(game_boy.has_battery());
    assert_eq!(game_boy.title(), "BATTERYTEST");
}

#[test]
fn supports_mbc3_ram_battery_cartridge_detection() {
    let rom = make_rom(&[0x00], 0x13, "POKEMONRED");
    let game_boy = GameBoy::from_rom_bytes(rom).unwrap();

    assert!(game_boy.has_battery());
    assert_eq!(game_boy.title(), "POKEMONRED");
}

#[test]
fn supports_non_battery_cartridge_detection() {
    let rom = make_rom(&[0x00], 0x01, "NOBATTERY");
    let game_boy = GameBoy::from_rom_bytes(rom).unwrap();

    assert!(!game_boy.has_battery());
    assert_eq!(game_boy.title(), "NOBATTERY");
}

#[test]
fn supports_add_instruction_and_direct_loads() {
    let rom = make_rom(
        &[
            0x3E, 0x05, // LD A,$05
            0x06, 0x03, // LD B,$03
            0x80, // ADD A,B
            0x76, // HALT
        ],
        0x00,
        "ARITH",
    );
    let mut game_boy = GameBoy::from_rom_bytes(rom).unwrap();
    let stats = game_boy.run_steps(4).unwrap();

    assert_eq!(stats.instructions, 4);
    assert!(stats.halted);
    assert_eq!(game_boy.registers().a, 0x08);
}

#[test]
fn supports_cp_immediate_instruction() {
    let rom = make_rom(
        &[
            0x3E, 0x05, // LD A,$05
            0xFE, 0x05, // CP $05
            0x76, // HALT
        ],
        0x00,
        "COMPARE",
    );
    let mut game_boy = GameBoy::from_rom_bytes(rom).unwrap();
    let stats = game_boy.run_steps(3).unwrap();

    assert_eq!(stats.instructions, 3);
    assert!(stats.halted);
    assert_eq!(game_boy.registers().f & 0x80, 0x80);
    assert_eq!(game_boy.registers().f & 0x40, 0x40);
    assert_eq!(game_boy.registers().a, 0x05);
}

#[test]
fn rejects_too_small_rom() {
    let error = GameBoy::from_rom_bytes(vec![0; 0x100]).unwrap_err();
    match error {
        GameBoyError::Cartridge(CartridgeError::RomTooSmall { found, minimum }) => {
            assert_eq!(found, 0x100);
            assert_eq!(minimum, 0x8000);
        }
        _ => panic!("expected a too-small ROM error"),
    }
}

#[test]
fn blank_title_reads_unknown() {
    let game_boy = GameBoy::from_rom_bytes(make_rom(&[0x00], 0x00, "   ")).unwrap();
    assert_eq!(game_boy.title(), "UNKNOWN");
}

#[test]
fn screen_is_160_by_144_and_starts_white() {
    assert_eq!(GameBoy::screen_dimensions(), (160, 144));
    let game_boy = GameBoy::from_rom_bytes(make_rom(&[0x00], 0x00, "WHITE")).unwrap();
    assert_eq!(game_boy.framebuffer().len(), 160 * 144);
    assert!(game_boy.framebuffer().iter().all(|&p| p == 0));
    assert_eq!(game_boy.total_cycles(), 0);
    assert!(!game_boy.ime_enabled());
}

#[test]
fn total_cycles_counts_every_step() {
    let mut game_boy = GameBoy::from_rom_bytes(make_rom(&[0x00, 0x00, 0x76], 0x00, "COUNT")).unwrap();
    let stats = game_boy.run_steps(10).unwrap();
    assert_eq!(stats.instructions, 3);
    assert_eq!(game_boy.total_cycles(), stats.cycles);
}

#[test]
fn unimplemented_opcode_is_reported() {
    let mut game_boy = GameBoy::from_rom_bytes(make_rom(&[0xD3], 0x00, "BADOP")).unwrap();
    match game_boy.run_steps(1).unwrap_err() {
        GameBoyError::Cpu(_) => {}
        _ => panic!("expected a CPU error"),
    }
}

#[test]
fn save_game_names_the_save_after_the_title() {
    let game_boy = GameBoy::from_rom_bytes(make_rom(&[0x00], 0x03, "SAVER")).unwrap();
    let save = game_boy.save_game().unwrap();
    assert_eq!(save.path, "SAVER.sav");
    assert_eq!(save.data.len(), 0x8000);
    let plain = GameBoy::from_rom_bytes(make_rom(&[0x00], 0x01, "PLAIN")).unwrap();
    assert!(plain.save_game().is_none());
}

#[test]
fn run_frame_completes_with_lcd_on() {
    let mut game_boy = GameBoy::from_rom_bytes(make_rom(&[0x18, 0xFE], 0x00, "LOOP")).unwrap();
    game_boy.run_frame().unwrap();
    assert!(game_boy.total_cycles() >= 154 * 456 - 456);
}

#[test]
fn button_state_reaches_the_joypad_register() {
    let mut game_boy = GameBoy::from_rom_bytes(make_rom(&[0x00], 0x00, "JOYPAD")).unwrap();
    game_boy.set_button_state(0x09); // A and Start
    game_boy.bus.write8(0xFF00, 0x20); // P1.4 = 0: the action buttons
    assert_eq!(game_boy.bus.read8(0xFF00) & 0x0F, 0x06);
}

#[test]
fn joypad_select_bits_pick_the_button_group() {
    let mut game_boy = GameBoy::from_rom_bytes(make_rom(&[0x00], 0x00, "JOYPAD")).unwrap();
    game_boy.set_button_state(0x01 | 0x40); // A and Up
    game_boy.bus.write8(0xFF00, 0x10); // P1.5 = 0: the directions
    assert_eq!(game_boy.bus.read8(0xFF00), 0xDB);
    game_boy.set_button_state(0x01); // A only
    assert_eq!(game_boy.bus.read8(0xFF00), 0xDF);
    game_boy.bus.write8(0xFF00, 0x30); // nothing selected
    assert_eq!(game_boy.bus.read8(0xFF00), 0xFF);
}

#[test]
fn ei_enables_interrupts_after_the_next_instruction() {
    // EI; INC B; NOP, with a VBlank interrupt requested and enabled.
    let mut game_boy = GameBoy::from_rom_bytes(make_rom(&[0xFB, 0x04, 0x00], 0x00, "EIDELAY")).unwrap();
    game_boy.bus.write8(0xFFFF, 0x01);
    game_boy.bus.write8(0xFF0F, 0x01);
    let b = game_boy.registers().b;
    let first = game_boy.run_steps(1).unwrap();
    assert_eq!(first.cycles, 4);
    assert!(!game_boy.ime_enabled());
    game_boy.run_steps(1).unwrap();
    assert_eq!(game_boy.registers().b, b.wrapping_add(1));
    assert_eq!(game_boy.pc(), 0x0102);
    assert!(game_boy.ime_enabled());
    let third = game_boy.run_steps(1).unwrap();
    assert_eq!(third.cycles, 20);
    assert_eq!(game_boy.pc(), 0x0040);
}

#[test]
fn di_right_after_ei_keeps_interrupts_off() {
    let mut game_boy = GameBoy::from_rom_bytes(make_rom(&[0xFB, 0xF3, 0x00], 0x00, "EIDI")).unwrap();
    game_boy.run_steps(3).unwrap();
    assert!(!game_boy.ime_enabled());
}

#[test]
fn run_frame_within_reports_a_frame_or_runs_out() {
    // JR -2 spins forever; with the LCD on a frame completes every 70224 cycles.
    let mut game_boy = GameBoy::from_rom_bytes(make_rom(&[0x18, 0xFE], 0x00, "SPIN")).unwrap();
    assert!(game_boy.run_frame_within(10).is_none());
    assert_eq!(game_boy.total_cycles(), 10 * 12);
    assert!(matches!(game_boy.run_frame_within(100_000), Some(Ok(()))));
}

#[test]
fn save_file_round_trip_restores_battery_ram() {
    let rom = make_rom(&[0x00], 0x03, "SAVER");
    let mut game_boy = GameBoy::from_rom_bytes(rom.clone()).unwrap();
    game_boy.bus.write8(0x0000, 0x0A);
    game_boy.bus.write8(0xA000, 0x5A);
    let save = game_boy.save_game().unwrap();
    assert_eq!(game_boy.save_path().unwrap(), save.path);
    assert_eq!(save.path, "SAVER.sav");

    let mut fresh = GameBoy::from_rom_bytes(rom).unwrap();
    assert!(!fresh.load_save_file(&vec![1, 2, 3]));
    assert!(fresh.load_save_file(&save.data));
    fresh.bus.write8(0x0000, 0x0A);
    assert_eq!(fresh.bus.read8(0xA000), 0x5A);

    let mut plain = GameBoy::from_rom_bytes(make_rom(&[0x00], 0x01, "PLAIN")).unwrap();
    assert!(plain.save_path().is_none());
    assert!(!plain.load_save_file(&save.data));
}
