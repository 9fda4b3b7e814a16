use gb_gba_emu::common::HeadlessCore;
use gb_gba_emu::gba::GameBoyAdvance;

#[test]
fn step_advances_stub_cycle_counter() {
    let mut gba = GameBoyAdvance::new();
    let step_result = gba.step().unwrap();

    assert!(step_result.cycles > 0);
    assert_eq!(gba.total_cycles(), step_result.cycles as u64);
}

#[test]
fn title_comes_from_the_header() {
    let mut rom = vec![0u8; 0x200];
    rom[0xA0..0xAC].copy_from_slice(b"POKEMON EMER");
    let gba = GameBoyAdvance::from_rom_bytes(rom).unwrap();
    assert_eq!(gba.title(), "POKEMON EMER");
    let short = GameBoyAdvance::from_rom_bytes(vec![0u8; 0x10]).unwrap();
    assert_eq!(short.title(), "GBA GAME");
    let mut bad = vec![0u8; 0x200];
    bad[0xA0] = 0xFF;
    assert_eq!(GameBoyAdvance::from_rom_bytes(bad).unwrap().title(), "GBA GAME");
}

#[test]
fn machine_basics() {
    assert_eq!(GameBoyAdvance::screen_dimensions(), (240, 160));
    let mut gba = GameBoyAdvance::new();
    assert_eq!(gba.framebuffer().len(), 240 * 160);
    assert!(!gba.has_battery());
    assert!(gba.save_game().is_ok());
    gba.set_button_state(0x01);
    assert_eq!(gba.bus.keyinput, 0x03FE);
}

#[test]
fn run_frame_runs_a_frame_of_cycles() {
    let mut gba = GameBoyAdvance::new();
    gba.run_frame().unwrap();
    assert!(gba.total_cycles() >= 280_896);
    // The PPU has gone around to VBlank and back.
    assert!(gba.bus.read_halfword(0x04000006) < 228);
}
