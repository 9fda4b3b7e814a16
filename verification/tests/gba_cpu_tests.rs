use gb_gba_emu::gba::bus::Bus;
use gb_gba_emu::gba::cpu::{Cpu, ShiftType};
use gb_gba_emu::gba::regs::{CpuMode, Registers, StatusRegister};

#[test]
fn test_registers_get_set() {
    let mut regs = Registers::default();
    regs.cpsr.mode = CpuMode::User;

    regs.set(0, 100);
    regs.set(7, 700);
    assert_eq!(regs.get(0), 100);
    assert_eq!(regs.get(7), 700);

    // Switch to FIQ, r8-r12 are banked
    regs.switch_mode(CpuMode::Fiq);
    regs.set(8, 888);
    assert_eq!(regs.get(8), 888);

    regs.switch_mode(CpuMode::User);
    assert_eq!(regs.get(8), 0); // Not the FIQ banking
}

#[test]
fn test_banked_r13_r14() {
    let mut regs = Registers::default();

    // User/System SP
    regs.switch_mode(CpuMode::User);
    regs.set(13, 0x1111);
    regs.set(14, 0x2222);

    // Supervisor SP
    regs.switch_mode(CpuMode::Supervisor);
    regs.set(13, 0x3333);
    regs.set(14, 0x4444);

    // Verify isolation
    regs.switch_mode(CpuMode::User);
    assert_eq!(regs.get(13), 0x1111);
    assert_eq!(regs.get(14), 0x2222);

    regs.switch_mode(CpuMode::Supervisor);
    assert_eq!(regs.get(13), 0x3333);
    assert_eq!(regs.get(14), 0x4444);
}

#[test]
fn test_status_register_pack_unpack() {
    let mut sr = StatusRegister::new();
    sr.n = true;
    sr.z = false;
    sr.c = true;
    sr.v = false;
    sr.mode = CpuMode::Supervisor;

    let val = sr.to_u32();
    let mut sr2 = StatusRegister::default();
    sr2.from_u32(val);

    assert_eq!(sr2.n, true);
    assert_eq!(sr2.z, false);
    assert_eq!(sr2.c, true);
    assert_eq!(sr2.v, false);
    assert_eq!(sr2.mode, CpuMode::Supervisor);
}

#[test]
fn test_pc_lookahead() {
    let mut cpu = Cpu::new();
    cpu.registers.r15 = 0x1000;

    cpu.registers.cpsr.t = false; // ARM mode
    assert_eq!(cpu.pc_lookahead(), 0x1008);

    cpu.registers.cpsr.t = true; // Thumb mode
    assert_eq!(cpu.pc_lookahead(), 0x1004);
}

#[test]
fn test_hle_swi_cpu_set() {
    let mut cpu = Cpu::new();
    let mut bus = Bus::default();

    bus.write_word(0x03001000, 0x11111111);
    bus.write_word(0x03001004, 0x22222222);

    cpu.registers.set(0, 0x03001000);
    cpu.registers.set(1, 0x03002000);
    cpu.registers.set(2, 2 | (1 << 26));

    cpu.handle_hle_swi(0x0B, &mut bus);

    assert_eq!(bus.read_word(0x03002000), 0x11111111);
    assert_eq!(bus.read_word(0x03002004), 0x22222222);
}

#[test]
fn test_arm_alu_and_shifted_ops() {
    let mut cpu = Cpu::new();
    let mut bus = Bus::default();

    let mov_r1_255 = 0xE3A010FF;
    cpu.registers.r15 = 0x03000000;
    bus.write_word(0x03000000, mov_r1_255);
    let cycles = cpu.step(&mut bus);
    assert_eq!(cycles, 1);
    assert_eq!(cpu.registers.get(1), 255);
    assert_eq!(cpu.registers.r15, 0x03000004);

    let add_shifted = 0xE0812101;
    bus.write_word(0x03000004, add_shifted);
    let cycles = cpu.step(&mut bus);
    assert_eq!(cycles, 1);
    assert_eq!(cpu.registers.get(2), 1275);
    assert_eq!(cpu.registers.r15, 0x03000008);
}

#[test]
fn test_arm_branch_ops() {
    let mut cpu = Cpu::new();
    let mut bus = Bus::default();
    cpu.registers.r15 = 0x03000000;

    let bl_plus_8 = 0xEB000002;
    bus.write_word(0x03000000, bl_plus_8);

    let cycles = cpu.step(&mut bus);
    assert_eq!(cycles, 3);
    assert_eq!(cpu.registers.r15, 0x03000010);
    assert_eq!(cpu.registers.get(14), 0x03000004);
}

#[test]
fn test_thumb_alu_ops() {
    let mut cpu = Cpu::new();
    let mut bus = Bus::default();
    cpu.registers.cpsr.t = true;
    cpu.registers.r15 = 0x03000000;

    bus.write_halfword(0x03000000, 0x202A);
    let cycles = cpu.step(&mut bus);
    assert_eq!(cycles, 1);
    assert_eq!(cpu.registers.get(0), 42);
    assert_eq!(cpu.registers.r15, 0x03000002);

    bus.write_halfword(0x03000002, 0x1D41);
    let cycles = cpu.step(&mut bus);
    assert_eq!(cycles, 1);
    assert_eq!(cpu.registers.get(1), 47);
    assert_eq!(cpu.registers.r15, 0x03000004);
}

#[test]
fn barrel_shifter_edge_amounts() {
    let cpu = Cpu::new();
    assert_eq!(cpu.barrel_shift(ShiftType::Lsl, 0, 0x8000_0001, true), (0x8000_0001, true));
    assert_eq!(cpu.barrel_shift(ShiftType::Lsl, 1, 0x8000_0001, false), (0x0000_0002, true));
    assert_eq!(cpu.barrel_shift(ShiftType::Lsl, 32, 0x0000_0001, false), (0, true));
    assert_eq!(cpu.barrel_shift(ShiftType::Lsr, 32, 0x8000_0000, false), (0, true));
    assert_eq!(cpu.barrel_shift(ShiftType::Lsr, 33, 0x8000_0000, true), (0, false));
    assert_eq!(cpu.barrel_shift(ShiftType::Asr, 4, 0x8000_0000, false), (0xF800_0000, false));
    assert_eq!(cpu.barrel_shift(ShiftType::Asr, 40, 0x8000_0000, false), (0xFFFF_FFFF, true));
    assert_eq!(cpu.barrel_shift(ShiftType::Ror, 8, 0x0000_00AB, false), (0xAB00_0000, true));
    assert_eq!(cpu.barrel_shift(ShiftType::Ror, 32, 0x0000_00AB, true), (0x0000_00AB, true));
}

#[test]
fn conditions_follow_the_flags() {
    let mut cpu = Cpu::new();
    cpu.registers.cpsr.z = true;
    assert!(cpu.check_condition(0x0));
    assert!(!cpu.check_condition(0x1));
    cpu.registers.cpsr.n = true;
    cpu.registers.cpsr.v = false;
    assert!(cpu.check_condition(0xB)); // LT
    assert!(!cpu.check_condition(0xA)); // GE
    assert!(cpu.check_condition(0xD)); // LE
    assert!(cpu.check_condition(0xE));
    assert!(cpu.check_condition(0xF));
}

#[test]
fn arm_subs_sets_flags_and_skips_failed_conditions() {
    let mut cpu = Cpu::new();
    let mut bus = Bus::default();
    cpu.registers.r15 = 0x03000000;
    cpu.registers.set(1, 5);
    bus.write_word(0x03000000, 0xE2510005); // SUBS R0, R1, #5
    bus.write_word(0x03000004, 0x13A02007); // MOVNE R2, #7 (skipped)
    cpu.step(&mut bus);
    assert_eq!(cpu.registers.get(0), 0);
    assert!(cpu.registers.cpsr.z);
    assert!(cpu.registers.cpsr.c);
    assert!(!cpu.registers.cpsr.n);
    let cycles = cpu.step(&mut bus);
    assert_eq!(cycles, 1);
    assert_eq!(cpu.registers.get(2), 0);
    assert_eq!(cpu.registers.r15, 0x03000008);
}

#[test]
fn arm_store_and_load_word() {
    let mut cpu = Cpu::new();
    let mut bus = Bus::default();
    cpu.registers.r15 = 0x03000000;
    cpu.registers.set(1, 0x03001000);
    cpu.registers.set(2, 0xCAFEBABE);
    bus.write_word(0x03000000, 0xE5812004); // STR R2, [R1, #4]
    bus.write_word(0x03000004, 0xE5913004); // LDR R3, [R1, #4]
    assert_eq!(cpu.step(&mut bus), 1);
    assert_eq!(bus.read_word(0x03001004), 0xCAFEBABE);
    assert_eq!(cpu.step(&mut bus), 2);
    assert_eq!(cpu.registers.get(3), 0xCAFEBABE);
}

#[test]
fn thumb_bx_switches_to_arm() {
    let mut cpu = Cpu::new();
    let mut bus = Bus::default();
    cpu.registers.cpsr.t = true;
    cpu.registers.r15 = 0x03000000;
    cpu.registers.set(1, 0x03000100);
    // The decoder runs instructions whose top five bits are 01001 as high-register
    // operations; with operation 3 this one is BX R1.
    bus.write_halfword(0x03000000, 0x4F08);
    assert_eq!(cpu.step(&mut bus), 3);
    assert!(!cpu.registers.cpsr.t);
    assert_eq!(cpu.registers.r15, 0x03000100);
}

#[test]
fn irq_is_taken_when_enabled() {
    let mut cpu = Cpu::new();
    let mut bus = Bus::default();
    cpu.registers.r15 = 0x03000000;
    cpu.registers.cpsr.i = false;
    bus.write_halfword(0x04000208, 1); // IME
    bus.write_halfword(0x04000200, 1); // IE: VBlank
    bus.write_halfword(0x04000202, 1); // IF: VBlank
    cpu.check_interrupts(&bus);
    assert_eq!(cpu.registers.cpsr.mode, CpuMode::Irq);
    assert!(cpu.registers.cpsr.i);
    assert_eq!(cpu.registers.r15, 0x18);
    assert_eq!(cpu.registers.get(14), 0x03000004);
    assert_eq!(cpu.registers.get_spsr().mode, CpuMode::System);
}

#[test]
fn post_boot_state() {
    let mut cpu = Cpu::new();
    cpu.init_post_boot();
    assert_eq!(cpu.registers.r15, 0x0800_0000);
    assert_eq!(cpu.registers.cpsr.mode, CpuMode::System);
    assert_eq!(cpu.registers.get(13), 0x03007F00);
    cpu.registers.switch_mode(CpuMode::Irq);
    assert_eq!(cpu.registers.get(13), 0x03007FA0);
    cpu.registers.switch_mode(CpuMode::Supervisor);
    assert_eq!(cpu.registers.get(13), 0x03007FE0);
}

#[test]
fn mode_bits_round_trip() {
    assert_eq!(CpuMode::User.bits(), 0x10);
    assert_eq!(CpuMode::System.bits(), 0x1F);
    let mut sr = StatusRegister::default();
    sr.from_u32(0x6000_003F);
    assert!(sr.z && sr.c && !sr.n && sr.t);
    assert_eq!(sr.mode, CpuMode::System);
    assert_eq!(sr.to_u32(), 0x6000_003F);
}

#[test]
fn irq_handler_return_restores_the_interrupted_registers() {
    let mut cpu = Cpu::new();
    cpu.init_post_boot();
    let mut bus = Bus::default();
    cpu.registers.r15 = 0x03000000;
    cpu.registers.cpsr.i = false;
    for (r, v) in [(0u8, 0x10u32), (1, 0x11), (2, 0x12), (3, 0x13), (12, 0x1C0), (14, 0x1E0)] {
        cpu.registers.set(r, v);
    }
    bus.write_word(0x03000000, 0xE1A00000); // MOV R0, R0
    bus.write_word(0x03000100, 0xE1A0F00E); // MOV PC, LR
    bus.write_word(0x03007FFC, 0x03000100); // the game's IRQ handler
    bus.write_halfword(0x04000208, 1); // IME
    bus.write_halfword(0x04000200, 1); // IE: VBlank
    bus.write_halfword(0x04000202, 1); // IF: VBlank

    // Enter the handler, which returns at once through 0x1C.
    cpu.step(&mut bus);
    assert_eq!(cpu.registers.r15, 0x1C);
    assert_eq!(cpu.registers.get(13), 0x03007F00 - 28);
    cpu.step(&mut bus);

    assert_eq!(cpu.registers.cpsr.mode, CpuMode::System);
    assert!(!cpu.registers.cpsr.i);
    assert_eq!(cpu.registers.r15, 0x03000004);
    for (r, v) in [(0u8, 0x10u32), (1, 0x11), (2, 0x12), (3, 0x13), (12, 0x1C0), (13, 0x03007F00), (14, 0x1E0)] {
        assert_eq!(cpu.registers.get(r), v);
    }
}
