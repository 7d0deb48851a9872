use gameboy_core::registers::CpuFlag;
use gameboy_core::registers::Registers;

#[test]
fn wide_registers() {
    let mut regs = Registers::new();
    regs.a = 0x12;
    regs.set_f(0x23);
    regs.b = 0x34;
    regs.c = 0x45;
    regs.d = 0x56;
    regs.e = 0x67;
    regs.h = 0x78;
    regs.l = 0x89;

    assert_eq!(regs.get_af(), 0x1220);
    assert_eq!(regs.get_bc(), 0x3445);
    assert_eq!(regs.get_de(), 0x5667);
    assert_eq!(regs.get_hl(), 0x7889);

    regs.set_af(0x4242);
    regs.set_bc(0x4242);
    regs.set_de(0x4242);
    regs.set_hl(0x4242);

    assert_eq!(regs.get_af(), 0x4240);
    assert_eq!(regs.get_bc(), 0x4242);
    assert_eq!(regs.get_de(), 0x4242);
    assert_eq!(regs.get_hl(), 0x4242);
}

#[test]
fn flags() {
    let mut regs = Registers::new();

    regs.set_flag(CpuFlag::Z, true);
    regs.set_flag(CpuFlag::N, true);
    regs.set_flag(CpuFlag::H, true);
    regs.set_flag(CpuFlag::C, true);

    assert_eq!(regs.get_flag(CpuFlag::Z), true);
    assert_eq!(regs.get_flag(CpuFlag::N), true);
    assert_eq!(regs.get_flag(CpuFlag::H), true);
    assert_eq!(regs.get_flag(CpuFlag::C), true);

    regs.set_flag(CpuFlag::Z, false);
    regs.set_flag(CpuFlag::N, false);
    regs.set_flag(CpuFlag::H, false);
    regs.set_flag(CpuFlag::C, false);

    assert_eq!(regs.get_flag(CpuFlag::Z), false);
    assert_eq!(regs.get_flag(CpuFlag::N), false);
    assert_eq!(regs.get_flag(CpuFlag::H), false);
    assert_eq!(regs.get_flag(CpuFlag::C), false);
}

#[test]
fn flag_low_nibble_reads_zero_after_any_writes() {
    let mut regs = Registers::new();
    regs.set_f(0xFF);
    assert_eq!(regs.get_af() & 0x000F, 0);
    regs.set_flag(CpuFlag::C, true);
    regs.set_flag(CpuFlag::Z, true);
    assert_eq!(regs.get_af() & 0x000F, 0);
    regs.set_af(0xABCD);
    assert_eq!(regs.get_af() & 0x000F, 0);
    regs.set_flags(true, false, true, true);
    assert_eq!(regs.get_af() & 0x000F, 0);
    assert_eq!(regs.get_af(), 0xABB0);
}

#[test]
fn pair_setters_round_trip() {
    let mut regs = Registers::new();
    regs.set_bc(0x1234);
    assert_eq!(regs.b, 0x12);
    assert_eq!(regs.c, 0x34);
    regs.set_de(0x00FF);
    assert_eq!(regs.get_de(), 0x00FF);
    regs.set_hl(0xFFFF);
    assert_eq!(regs.get_hl(), 0xFFFF);
}
