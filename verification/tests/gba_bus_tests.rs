use gb_gba_emu::gba::bus::{AccessWidth, Bus};
use gb_gba_emu::gba::dma::DmaTrigger;

#[test]
fn test_bus_read_write_ram() {
    let mut bus = Bus::default();

    // EWRAM
    bus.write_byte(0x02000100, 0xAB);
    assert_eq!(bus.read_byte(0x02000100), 0xAB);

    // IWRAM
    bus.write_halfword(0x03000200, 0x1234);
    assert_eq!(bus.read_halfword(0x03000200), 0x1234);

    bus.write_word(0x03000400, 0xDEADBEEF);
    assert_eq!(bus.read_word(0x03000400), 0xDEADBEEF);
}

#[test]
fn test_bus_waitstate_cycles() {
    let mut bus = Bus::default();

    bus.cycles = 0;
    bus.add_cycles(0x03000000, AccessWidth::Word, false);
    assert_eq!(bus.cycles, 1);

    bus.cycles = 0;
    bus.add_cycles(0x02000000, AccessWidth::Word, false);
    assert_eq!(bus.cycles, 6);
}

#[test]
fn game_pak_wait_states_depend_on_sequence_and_width() {
    let mut bus = Bus::default();
    bus.add_cycles(0x08000000, AccessWidth::Halfword, false);
    assert_eq!(bus.cycles, 5);
    bus.add_cycles(0x08000000, AccessWidth::Word, true);
    assert_eq!(bus.cycles, 9);
    bus.add_cycles(0x0E000000, AccessWidth::Byte, true);
    assert_eq!(bus.cycles, 14);
    bus.add_cycles(0x05000000, AccessWidth::Word, true);
    assert_eq!(bus.cycles, 16);
}

#[test]
fn memory_mirrors_and_read_only_regions() {
    let mut bus = Bus::new(vec![0x11, 0x22, 0x33, 0x44]);
    // IWRAM mirrors every 32KB.
    bus.write_byte(0x03000010, 0x5A);
    assert_eq!(bus.read_byte(0x03008010), 0x5A);
    // The last 32KB of the VRAM page mirror the 32KB before them.
    bus.write_byte(0x06010000, 0x77);
    assert_eq!(bus.read_byte(0x06018000), 0x77);
    // ROM reads the game pak and ignores writes; past its end it reads 0.
    assert_eq!(bus.read_word(0x08000000), 0x44332211);
    bus.write_byte(0x08000000, 0xFF);
    assert_eq!(bus.read_byte(0x08000000), 0x11);
    assert_eq!(bus.read_byte(0x08000010), 0);
    // Unmapped pages read 0.
    assert_eq!(bus.read_byte(0x01000000), 0);
}

#[test]
fn keypad_reads_active_low() {
    let mut bus = Bus::default();
    assert_eq!(bus.read_halfword(0x04000130), 0x03FF);
    bus.set_button_state(0x09); // A and Start
    assert_eq!(bus.read_halfword(0x04000130), 0x03F6);
    assert_eq!(bus.keyinput, 0x03F6);
}

#[test]
fn timer_registers_go_to_the_timers() {
    let mut bus = Bus::default();
    bus.write_halfword(0x04000100, 0xFFFE); // TM0 reload
    bus.write_halfword(0x04000102, 0x00C0); // start, interrupt, prescaler 1
    assert_eq!(bus.timers.timers[0].reload, 0xFFFE);
    bus.tick(1);
    assert_eq!(bus.read_halfword(0x04000100), 0xFFFF);
    bus.tick(1);
    // Overflowed: reloaded and the timer 0 interrupt (IF bit 3) requested.
    assert_eq!(bus.read_halfword(0x04000100), 0xFFFE);
    assert_eq!(bus.read_halfword(0x04000202) & 0x08, 0x08);
}

#[test]
fn immediate_dma_copies_words() {
    let mut bus = Bus::default();
    bus.write_word(0x03000000, 0x11111111);
    bus.write_word(0x03000004, 0x22222222);
    bus.write_word(0x040000B0, 0x03000000); // DMA0 source
    bus.write_word(0x040000B4, 0x03001000); // DMA0 destination
    // Count 2, 32-bit, enable, immediate timing, interrupt.
    bus.write_word(0x040000B8, 0x0002 | (0xC400u32 << 16));
    assert_eq!(bus.read_word(0x03001000), 0x11111111);
    assert_eq!(bus.read_word(0x03001004), 0x22222222);
    // A non-repeating transfer disables its channel and requests its interrupt (IF bit 8).
    assert!(!bus.dma.channels[0].enabled);
    assert_eq!(bus.read_halfword(0x040000BA) & 0x8000, 0);
    assert_eq!(bus.read_halfword(0x04000202) & 0x0100, 0x0100);
    // Each unit costs the source's wait states.
    assert_eq!(bus.cycles, 2);
}

#[test]
fn vblank_dma_runs_on_trigger() {
    let mut bus = Bus::default();
    bus.write_halfword(0x02000000, 0xBEEF);
    bus.write_word(0x040000D4, 0x02000000); // DMA3 source
    bus.write_word(0x040000D8, 0x02000100); // DMA3 destination
    bus.write_halfword(0x040000DC, 1); // count 1
    bus.write_halfword(0x040000DE, 0x9000); // enable, VBlank timing, 16-bit
    assert_eq!(bus.read_halfword(0x02000100), 0);
    bus.trigger_dma(DmaTrigger::HBlank);
    assert_eq!(bus.read_halfword(0x02000100), 0);
    bus.trigger_dma(DmaTrigger::VBlank);
    assert_eq!(bus.read_halfword(0x02000100), 0xBEEF);
}
