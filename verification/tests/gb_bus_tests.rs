use gb_gba_emu::gb::GameBoy;

const ROM_SIZE: usize = 0x8000;

fn make_rom() -> Vec<u8> {
    let mut rom = vec![0; ROM_SIZE];
    rom[0x0147] = 0x00; // ROM ONLY
    rom
}

#[test]
fn test_bus_vram_read_write() {
    let mut gb = GameBoy::from_rom_bytes(make_rom()).unwrap();
    
    // Write to VRAM Bank 0
    gb.bus.write8(0x8000, 0xAB);
    assert_eq!(gb.bus.read8(0x8000), 0xAB);

    // Write to VRAM Bank 1 (requires CGB mode, so we check if writes pass or fail based on mode)
    if gb.bus.is_cgb {
        gb.bus.write8(0xFF4F, 1); // Select VRAM Bank 1
        gb.bus.write8(0x8000, 0xCD);
        assert_eq!(gb.bus.read8(0x8000), 0xCD);
        
        gb.bus.write8(0xFF4F, 0); // Back to Bank 0
        assert_eq!(gb.bus.read8(0x8000), 0xAB);
    }
}

#[test]
fn test_bus_wram_read_write() {
    let mut gb = GameBoy::from_rom_bytes(make_rom()).unwrap();
    
    // Write to fixed WRAM Bank 0 (0xC000-0xCFFF)
    gb.bus.write8(0xC000, 0x12);
    assert_eq!(gb.bus.read8(0xC000), 0x12);
    
    // Write to switchable WRAM Bank 1 (0xD000-0xDFFF)
    gb.bus.write8(0xD000, 0x34);
    assert_eq!(gb.bus.read8(0xD000), 0x34);

    // Echo RAM (0xE000-0xFDFF) mirrors WRAM (0xC000-0xDDFF)
    assert_eq!(gb.bus.read8(0xE000), 0x12);
    
    if gb.bus.is_cgb {
        gb.bus.write8(0xFF70, 2); // Select WRAM Bank 2
        gb.bus.write8(0xD000, 0x56);
        assert_eq!(gb.bus.read8(0xD000), 0x56);
        
        gb.bus.write8(0xFF70, 1); // Back to Bank 1
        assert_eq!(gb.bus.read8(0xD000), 0x34);
    }
}

#[test]
fn test_bus_hram_and_oam() {
    let mut gb = GameBoy::from_rom_bytes(make_rom()).unwrap();
    
    // Write to OAM
    gb.bus.write8(0xFE00, 0x99);
    assert_eq!(gb.bus.read8(0xFE00), 0x99);
    
    // Write to HRAM
    gb.bus.write8(0xFF80, 0x77);
    assert_eq!(gb.bus.read8(0xFF80), 0x77);
}

#[test]
fn test_bus_io_registers() {
    let mut gb = GameBoy::from_rom_bytes(make_rom()).unwrap();
    
    // SB and SC (Serial)
    gb.bus.write8(0xFF01, 0xAA);
    assert_eq!(gb.bus.read8(0xFF01), 0xAA);
    gb.bus.write8(0xFF02, 0x81); // Start transfer
    
    // Timer registers
    gb.bus.write8(0xFF04, 0x00); // DIV (writing resets it)
    assert_eq!(gb.bus.read8(0xFF04), 0x00);
    
    gb.bus.write8(0xFF05, 0xBB); // TIMA
    assert_eq!(gb.bus.read8(0xFF05), 0xBB);
    
    gb.bus.write8(0xFF06, 0xCC); // TMA
    assert_eq!(gb.bus.read8(0xFF06), 0xCC);
    
    gb.bus.write8(0xFF07, 0x05); // TAC
    assert_eq!(gb.bus.read8(0xFF07), 0x05);
    
    // Interrupt Flag (IF) and Enable (IE)
    gb.bus.write8(0xFF0F, 0x1F);
    assert_eq!(gb.bus.read8(0xFF0F), 0x1F);
    
    gb.bus.write8(0xFFFF, 0x1F);
    assert_eq!(gb.bus.read8(0xFFFF), 0x1F);
}

#[test]
fn oam_dma_copies_a_page_into_oam() {
    let mut gb = GameBoy::from_rom_bytes(make_rom()).unwrap();
    for i in 0..160u16 {
        gb.bus.write8(0xC100 + i, (i as u8).wrapping_mul(3));
    }
    gb.bus.write8(0xFF46, 0xC1);
    for i in 0..160u16 {
        assert_eq!(gb.bus.read8(0xFE00 + i), (i as u8).wrapping_mul(3));
    }
}

#[test]
fn stat_mode_bits_ignore_cpu_writes() {
    let mut gb = GameBoy::from_rom_bytes(make_rom()).unwrap();
    let before = gb.bus.read8(0xFF41) & 0x07;
    gb.bus.write8(0xFF41, 0xFF);
    assert_eq!(gb.bus.read8(0xFF41) & 0x07, before);
    assert_eq!(gb.bus.read8(0xFF41) & 0x78, 0x78);
}

#[test]
fn unusable_area_reads_ff_and_ignores_writes() {
    let mut gb = GameBoy::from_rom_bytes(make_rom()).unwrap();
    gb.bus.write8(0xFEA0, 0x12);
    assert_eq!(gb.bus.read8(0xFEA0), 0xFF);
    assert_eq!(gb.bus.read8(0xFEFF), 0xFF);
}

#[test]
fn div_write_resets_the_divider() {
    let mut gb = GameBoy::from_rom_bytes(make_rom()).unwrap();
    gb.bus.tick_timer(1000);
    assert_ne!(gb.bus.read8(0xFF04), 0);
    gb.bus.write8(0xFF04, 0x55);
    assert_eq!(gb.bus.read8(0xFF04), 0);
}

#[test]
fn tima_overflow_reloads_tma_and_requests_the_timer_interrupt() {
    let mut gb = GameBoy::from_rom_bytes(make_rom()).unwrap();
    gb.bus.write8(0xFF06, 0x42); // TMA
    gb.bus.write8(0xFF05, 0xFF); // TIMA
    gb.bus.write8(0xFF07, 0x05); // timer on, 16 cycles per increment
    gb.bus.write8(0xFF0F, 0x00);
    gb.bus.tick_timer(16);
    assert_eq!(gb.bus.read8(0xFF05), 0x42);
    assert_eq!(gb.bus.read8(0xFF0F) & 0x04, 0x04);
}

#[test]
fn lcd_starts_with_background_and_sprites_on() {
    let gb = GameBoy::from_rom_bytes(make_rom()).unwrap();
    assert_eq!(gb.bus.read8(0xFF40), 0x93);
    assert_eq!(gb.bus.read8(0xFF47), 0xFC);
    assert_eq!(gb.bus.read8(0xFF0F), 0xE1);
    assert_eq!(gb.bus.read8(0xFF44), 0);
}
