use gameboy_core::cpu::CPU;
use gameboy_core::errors::EmuError;
use gameboy_core::mbc::load_cartridge;
use gameboy_core::mmu::MMU;
use gameboy_core::registers::CpuFlag;

fn blank_rom() -> Vec<u8> {
    // all zero: the compatibility flag 0x00 and the no-banking type 0x00
    // are both valid
    vec![0u8; 0x8000]
}

fn fresh_cpu(rom: Vec<u8>) -> CPU {
    CPU::new(rom).expect("valid cartridge")
}

/// Runs the fetch call of one instruction and then the countdown calls
/// until the next fetch is due.
fn run_one_instruction(cpu: &mut CPU) {
    cpu.do_cycle().expect("instruction executes");
    while cpu.cycles_remaining != 0 {
        cpu.do_cycle().expect("countdown ticks");
    }
}

#[test]
fn load_blank_cartridge_succeeds() {
    assert!(load_cartridge(blank_rom()).is_ok());
}

#[test]
fn load_rejects_short_image() {
    assert_eq!(CPU::new(vec![0u8; 10]).err(), Some(EmuError::HeaderTooShort(10)));
}

#[test]
fn load_rejects_bad_compat_flag() {
    let mut rom = blank_rom();
    rom[0x143] = 0x42;
    assert_eq!(CPU::new(rom).err(), Some(EmuError::InvalidCompatFlag(0x42)));
}

#[test]
fn load_accepts_both_compat_flags() {
    let mut rom = blank_rom();
    rom[0x143] = 0x80;
    assert!(CPU::new(rom).is_ok());
}

#[test]
fn load_rejects_unknown_cartridge_type() {
    let mut rom = blank_rom();
    rom[0x147] = 0x01;
    assert_eq!(CPU::new(rom).err(), Some(EmuError::UnsupportedCartridgeType(0x01)));
}

#[test]
fn nop_costs_four_cycles_and_only_advances_pc() {
    // all-zero image: the byte at the reset address is the no-op opcode
    let mut cpu = fresh_cpu(blank_rom());
    cpu.do_cycle().expect("no-op executes");
    assert_eq!(cpu.total_cycles, 4);
    assert_eq!(cpu.registers.pc, 1);
    assert_eq!(cpu.registers.a, 0);
    assert_eq!(cpu.registers.get_bc(), 0);
    assert_eq!(cpu.registers.get_de(), 0);
    assert_eq!(cpu.registers.get_hl(), 0);
    assert_eq!(cpu.registers.sp, 0);
    assert_eq!(cpu.registers.get_af(), 0);
}

#[test]
fn jump_absolute_sets_pc_and_costs_sixteen_cycles() {
    let mut rom = blank_rom();
    rom[0] = 0xC3;
    rom[1] = 0x34;
    rom[2] = 0x12;
    let mut cpu = fresh_cpu(rom);
    cpu.do_cycle().expect("jump executes");
    assert_eq!(cpu.registers.pc, 0x1234);
    assert_eq!(cpu.total_cycles, 16);
}

#[test]
fn unknown_opcode_is_reported() {
    let mut rom = blank_rom();
    rom[0] = 0xD3;
    let mut cpu = fresh_cpu(rom);
    assert_eq!(cpu.do_cycle().err(), Some(EmuError::UnknownOpcode(0xD3)));
}

#[test]
fn unknown_cb_opcode_is_reported() {
    let mut rom = blank_rom();
    rom[0] = 0xCB;
    rom[1] = 0x00;
    let mut cpu = fresh_cpu(rom);
    assert_eq!(cpu.do_cycle().err(), Some(EmuError::UnknownCbOpcode(0x00)));
}

#[test]
fn inc_then_dec_returns_original_and_half_carry_tracks_dec() {
    let mut cpu = fresh_cpu(blank_rom());
    for n in [0x00u8, 0x0F, 0x10, 0x7F, 0xFF] {
        let up = cpu.alu8_inc(n);
        let back = cpu.alu8_dec(up);
        assert_eq!(back, n);
        // Half-carry reflects only the decrement: set exactly when the
        // incremented byte's low nibble was zero
        assert_eq!(cpu.registers.get_flag(CpuFlag::H), up & 0x0F == 0);
    }
}

#[test]
fn inc_dec_leave_carry_alone() {
    let mut cpu = fresh_cpu(blank_rom());
    cpu.registers.set_flag(CpuFlag::C, true);
    cpu.alu8_inc(0xFF);
    assert!(cpu.registers.get_flag(CpuFlag::C));
    cpu.alu8_dec(0x00);
    assert!(cpu.registers.get_flag(CpuFlag::C));
}

#[test]
fn alu_add_flags_are_textbook() {
    let mut cpu = fresh_cpu(blank_rom());
    let r = cpu.alu8_add(0x0F, 0x01);
    assert_eq!(r, 0x10);
    assert!(cpu.registers.get_flag(CpuFlag::H));
    assert!(!cpu.registers.get_flag(CpuFlag::C));
    assert!(!cpu.registers.get_flag(CpuFlag::Z));

    let r = cpu.alu8_add(0xFF, 0x01);
    assert_eq!(r, 0x00);
    assert!(cpu.registers.get_flag(CpuFlag::Z));
    assert!(cpu.registers.get_flag(CpuFlag::H));
    assert!(cpu.registers.get_flag(CpuFlag::C));
}

#[test]
fn alu_sub_flags_are_textbook() {
    let mut cpu = fresh_cpu(blank_rom());
    let r = cpu.alu8_sub(0x10, 0x01);
    assert_eq!(r, 0x0F);
    assert!(cpu.registers.get_flag(CpuFlag::N));
    assert!(cpu.registers.get_flag(CpuFlag::H));
    assert!(!cpu.registers.get_flag(CpuFlag::C));

    let r = cpu.alu8_sub(0x00, 0x01);
    assert_eq!(r, 0xFF);
    assert!(cpu.registers.get_flag(CpuFlag::C));
    assert!(cpu.registers.get_flag(CpuFlag::H));
}

#[test]
fn alu_adc_and_sbc_use_the_carry() {
    let mut cpu = fresh_cpu(blank_rom());
    cpu.registers.set_flag(CpuFlag::C, true);
    let r = cpu.alu8_adc(0x01, 0x01);
    assert_eq!(r, 0x03);

    cpu.registers.set_flag(CpuFlag::C, true);
    let r = cpu.alu8_sub_with_borrow(0x03, 0x01);
    assert_eq!(r, 0x01);

    cpu.registers.set_flag(CpuFlag::C, true);
    let r = cpu.alu8_sdc(0x00, 0x00);
    assert_eq!(r, 0xFF);
    assert!(cpu.registers.get_flag(CpuFlag::C));
}

#[test]
fn alu_and_or_xor_flags() {
    let mut cpu = fresh_cpu(blank_rom());
    let r = cpu.alu8_and(0xF0, 0x0F);
    assert_eq!(r, 0);
    assert!(cpu.registers.get_flag(CpuFlag::Z));
    assert!(cpu.registers.get_flag(CpuFlag::H));
    assert!(!cpu.registers.get_flag(CpuFlag::C));

    let r = cpu.alu8_or(0xF0, 0x0F);
    assert_eq!(r, 0xFF);
    assert!(!cpu.registers.get_flag(CpuFlag::Z));
    assert!(!cpu.registers.get_flag(CpuFlag::H));

    let r = cpu.alu8_xor(0xFF, 0xFF);
    assert_eq!(r, 0x00);
    assert!(cpu.registers.get_flag(CpuFlag::Z));
}

#[test]
fn rotate_left_goes_through_carry() {
    let mut cpu = fresh_cpu(blank_rom());
    cpu.registers.set_flag(CpuFlag::C, true);
    let r = cpu.alu8_rl(0x80);
    assert_eq!(r, 0x01);
    assert!(cpu.registers.get_flag(CpuFlag::C));
    let r = cpu.alu8_rl(0x01);
    assert_eq!(r, 0x03);
    assert!(!cpu.registers.get_flag(CpuFlag::C));
}

#[test]
fn wide_add_reports_bit11_and_bit15_carries() {
    let mut cpu = fresh_cpu(blank_rom());
    let r = cpu.alu16_add(0x0FFF, 0x0001);
    assert_eq!(r, 0x1000);
    assert!(cpu.registers.get_flag(CpuFlag::H));
    assert!(!cpu.registers.get_flag(CpuFlag::C));
    let r = cpu.alu16_add(0xFFFF, 0x0001);
    assert_eq!(r, 0x0000);
    assert!(cpu.registers.get_flag(CpuFlag::C));
    assert!(cpu.registers.get_flag(CpuFlag::Z));
}

#[test]
fn call_pushes_return_address_and_ret_pops_it() {
    let mut rom = blank_rom();
    rom[0] = 0x31; // LD SP, 0xD000
    rom[1] = 0x00;
    rom[2] = 0xD0;
    rom[3] = 0xCD; // CALL 0x0150
    rom[4] = 0x50;
    rom[5] = 0x01;
    rom[0x150] = 0xC9; // RET
    let mut cpu = fresh_cpu(rom);
    run_one_instruction(&mut cpu);
    assert_eq!(cpu.registers.sp, 0xD000);
    run_one_instruction(&mut cpu);
    assert_eq!(cpu.registers.pc, 0x0150);
    assert_eq!(cpu.registers.sp, 0xCFFE);
    assert_eq!(cpu.mmu.read_wide(0xCFFE).unwrap(), 0x0006);
    run_one_instruction(&mut cpu);
    assert_eq!(cpu.registers.pc, 0x0006);
    assert_eq!(cpu.registers.sp, 0xD000);
}

#[test]
fn conditional_relative_jump_costs_depend_on_the_branch() {
    let mut rom = blank_rom();
    rom[0] = 0xAF; // XOR A: sets the Zero flag
    rom[1] = 0x20; // JR NZ, +5: not taken
    rom[2] = 0x05;
    let mut cpu = fresh_cpu(rom);
    run_one_instruction(&mut cpu);
    let before = cpu.total_cycles;
    run_one_instruction(&mut cpu);
    assert_eq!(cpu.total_cycles - before, 8);
    assert_eq!(cpu.registers.pc, 3);
}

#[test]
fn relative_jump_with_negative_offset_wraps_back() {
    let mut rom = blank_rom();
    rom[0] = 0x18; // JR -2: back to this instruction
    rom[1] = 0xFE;
    let mut cpu = fresh_cpu(rom);
    run_one_instruction(&mut cpu);
    assert_eq!(cpu.registers.pc, 0);
}

#[test]
fn cb_swap_exchanges_nibbles() {
    let mut rom = blank_rom();
    rom[0] = 0x3E; // LD A, 0xAB
    rom[1] = 0xAB;
    rom[2] = 0xCB; // SWAP A
    rom[3] = 0x37;
    let mut cpu = fresh_cpu(rom);
    run_one_instruction(&mut cpu);
    assert_eq!(cpu.registers.a, 0xAB);
    run_one_instruction(&mut cpu);
    assert_eq!(cpu.registers.a, 0xBA);
}

#[test]
fn memory_store_through_hl_lands_in_ram() {
    let mut rom = blank_rom();
    rom[0] = 0x21; // LD HL, 0xC123
    rom[1] = 0x23;
    rom[2] = 0xC1;
    rom[3] = 0x3E; // LD A, 0x77
    rom[4] = 0x77;
    rom[5] = 0x77; // LD (HL), A
    let mut cpu = fresh_cpu(rom);
    run_one_instruction(&mut cpu);
    run_one_instruction(&mut cpu);
    run_one_instruction(&mut cpu);
    assert_eq!(cpu.mmu.read(0xC123).unwrap(), 0x77);
}

#[test]
fn interrupt_master_enable_follows_di_and_ei() {
    let mut rom = blank_rom();
    rom[0] = 0xFB; // EI
    rom[1] = 0xF3; // DI
    let mut cpu = fresh_cpu(rom);
    run_one_instruction(&mut cpu);
    assert!(cpu.ime);
    run_one_instruction(&mut cpu);
    assert!(!cpu.ime);
}

#[test]
fn mmu_wide_round_trip_in_ram_echo_and_hram() {
    let mut mmu = MMU::new(load_cartridge(blank_rom()).unwrap());
    mmu.write_wide(0xC000, 0xBEEF).unwrap();
    assert_eq!(mmu.read_wide(0xC000).unwrap(), 0xBEEF);
    mmu.write_wide(0xDFFF, 0x1234).unwrap();
    assert_eq!(mmu.read_wide(0xDFFF).unwrap(), 0x1234);
    mmu.write_wide(0xE010, 0xA55A).unwrap();
    assert_eq!(mmu.read_wide(0xE010).unwrap(), 0xA55A);
    // the echo window aliases internal RAM
    assert_eq!(mmu.read(0xC010).unwrap(), 0x5A);
    mmu.write_wide(0xFF80, 0xC0DE).unwrap();
    assert_eq!(mmu.read_wide(0xFF80).unwrap(), 0xC0DE);
}

#[test]
fn mmu_failures_name_the_region() {
    let mut mmu = MMU::new(load_cartridge(blank_rom()).unwrap());
    assert_eq!(mmu.read(0xFEA5).err(), Some(EmuError::UnimplementedRegion(0xFEA5)));
    assert_eq!(mmu.read(0xFF01).err(), Some(EmuError::UnimplementedRegion(0xFF01)));
    assert_eq!(mmu.read(0xFF50).err(), Some(EmuError::UnmappedAddress(0xFF50)));
    assert_eq!(mmu.write(0xFF03, 1).err(), Some(EmuError::UnmappedAddress(0xFF03)));
    // a read past the end of the cartridge image
    let small_end = mmu.read(0x7FFF);
    assert!(small_end.is_ok());
}

#[test]
fn mmu_rom_reads_and_ignored_writes() {
    let mut rom = blank_rom();
    rom[0x100] = 0xAB;
    let mut mmu = MMU::new(load_cartridge(rom).unwrap());
    assert_eq!(mmu.read(0x100).unwrap(), 0xAB);
    mmu.write(0x100, 0xCD).unwrap();
    assert_eq!(mmu.read(0x100).unwrap(), 0xAB);
    // external cartridge RAM reads a fixed value on a no-banking cartridge
    assert_eq!(mmu.read(0xA123).unwrap(), 0);
}

#[test]
fn interrupt_registers_hold_their_bytes() {
    let mut mmu = MMU::new(load_cartridge(blank_rom()).unwrap());
    mmu.write(0xFF0F, 0x15).unwrap();
    assert_eq!(mmu.read(0xFF0F).unwrap(), 0x15);
    mmu.write(0xFFFF, 0x1F).unwrap();
    assert_eq!(mmu.read(0xFFFF).unwrap(), 0x1F);
}

#[test]
fn joypad_byte_masks_low_bits_on_software_writes() {
    let mut mmu = MMU::new(load_cartridge(blank_rom()).unwrap());
    mmu.write(0xFF00, 0xFF).unwrap();
    assert_eq!(mmu.read(0xFF00).unwrap(), 0xF8);
}

#[test]
fn bit_test_sets_zero_when_the_bit_is_zero() {
    let mut cpu = fresh_cpu(blank_rom());
    cpu.registers.set_flag(CpuFlag::C, true);
    cpu.test_bit(0x08, 3);
    // the tested bit is one, so the test's result is nonzero
    assert!(!cpu.registers.get_flag(CpuFlag::Z));
    assert!(cpu.registers.get_flag(CpuFlag::H));
    assert!(!cpu.registers.get_flag(CpuFlag::N));
    assert!(cpu.registers.get_flag(CpuFlag::C)); // untouched
    cpu.test_bit(0xF7, 3);
    // the tested bit is zero, so Zero is set
    assert!(cpu.registers.get_flag(CpuFlag::Z));
}

#[test]
fn cb_bit_instructions_follow_the_zero_rule() {
    let mut rom = blank_rom();
    rom[0] = 0x3E; // LD A, 0x01
    rom[1] = 0x01;
    rom[2] = 0xCB; // BIT 0, A: the bit is one
    rom[3] = 0x47;
    rom[4] = 0xCB; // BIT 3, A: the bit is zero
    rom[5] = 0x5F;
    rom[6] = 0xCB; // BIT 7, H: H is zero, so the bit is zero
    rom[7] = 0x7C;
    let mut cpu = fresh_cpu(rom);
    run_one_instruction(&mut cpu);
    run_one_instruction(&mut cpu);
    assert!(!cpu.registers.get_flag(CpuFlag::Z));
    assert!(cpu.registers.get_flag(CpuFlag::H));
    run_one_instruction(&mut cpu);
    assert!(cpu.registers.get_flag(CpuFlag::Z));
    run_one_instruction(&mut cpu);
    assert!(cpu.registers.get_flag(CpuFlag::Z));
}
