use gameboy_core::cartridge::Cartridge;
use gameboy_core::cartridge_info::CartridgeInfo;
use gameboy_core::decode::decode_instruction;
use gameboy_core::decode::dec_i8;
use gameboy_core::decode::dec_u8;
use gameboy_core::decode::hex2;
use gameboy_core::decode::hex4;
use gameboy_core::instructions::instruction_info;
use gameboy_core::joypad::Joypad;
use gameboy_core::joypad::KeyInputs;
use gameboy_core::mbc::load_cartridge;
use gameboy_core::mmu::MMU;
use gameboy_core::palette::Colors;
use gameboy_core::palette::Palette;
use gameboy_core::ppu::LCDMode;
use gameboy_core::ppu::PPU;
use gameboy_core::registers::Registers;
use gameboy_core::timer::Timer;

fn enabled_ppu_at_oam_search() -> PPU {
    let mut ppu = PPU::new();
    ppu.lcdc = 0x81; // LCD on, background on
    ppu.set_mode(LCDMode::OAMSearch);
    ppu.cycles_remaining = 80;
    ppu
}

#[test]
fn one_scanline_takes_456_cycles() {
    let mut ppu = enabled_ppu_at_oam_search();
    assert_eq!(ppu.ly, 0);
    let mut flushes = 0u32;
    for _ in 0..456 {
        if ppu.do_cycle() {
            flushes += 1;
        }
    }
    assert_eq!(ppu.ly, 1);
    assert_eq!(flushes, 0);
    assert_eq!(ppu.stat & 0b11, 2); // back in OAM-Search
    assert_eq!(ppu.cycles_remaining, 80);
}

#[test]
fn one_frame_takes_154_scanlines_and_flushes_once() {
    let mut ppu = enabled_ppu_at_oam_search();
    let mut flushes = 0u32;
    for _ in 0..154 * 456 {
        if ppu.do_cycle() {
            flushes += 1;
        }
    }
    assert_eq!(flushes, 1);
    assert_eq!(ppu.ly, 0);
    assert_eq!(ppu.stat & 0b11, 2);
    assert_eq!(ppu.cycles_remaining, 80);
}

#[test]
fn disabled_lcd_freezes_the_pipeline() {
    let mut ppu = PPU::new();
    ppu.lcdc = 0x00;
    ppu.set_mode(LCDMode::OAMSearch);
    ppu.cycles_remaining = 80;
    for _ in 0..1000 {
        assert!(!ppu.do_cycle());
    }
    assert_eq!(ppu.ly, 0);
    assert_eq!(ppu.cycles_remaining, 80);
}

#[test]
fn vram_is_gated_during_transfer() {
    let mut ppu = PPU::new();
    ppu.lcdc = 0x80;
    ppu.set_mode(LCDMode::Transfer);
    ppu.write_vram(0x8000, 0x12); // dropped
    assert_eq!(ppu.read_vram(0x8000), 0xFF); // sentinel
    ppu.set_mode(LCDMode::HBlank);
    assert_eq!(ppu.read_vram(0x8000), 0x00);
    ppu.write_vram(0x8000, 0x34);
    assert_eq!(ppu.read_vram(0x8000), 0x34);
}

#[test]
fn oam_is_gated_during_oam_search_and_transfer() {
    let mut ppu = PPU::new();
    ppu.lcdc = 0x80;
    ppu.set_mode(LCDMode::OAMSearch);
    ppu.write_oam(0xFE00, 0x55);
    assert_eq!(ppu.read_oam(0xFE00), 0xFF);
    ppu.set_mode(LCDMode::VBlank);
    ppu.write_oam(0xFE00, 0x55);
    assert_eq!(ppu.read_oam(0xFE00), 0x55);
}

#[test]
fn scanline_counter_is_read_only_to_software() {
    let mut ppu = PPU::new();
    ppu.write_reg(0xFF44, 0x42).unwrap();
    assert_eq!(ppu.read_reg(0xFF44).unwrap(), 0x00);
}

#[test]
fn transfer_trigger_register_is_not_backed() {
    let mut ppu = PPU::new();
    assert!(ppu.read_reg(0xFF46).is_err());
    assert!(ppu.write_reg(0xFF46, 1).is_err());
}

#[test]
fn palette_decode_is_idempotent_under_rewrites() {
    let mut ppu = PPU::new();
    ppu.write_reg(0xFF47, 0b1110_0100).unwrap();
    let first = (
        ppu.bgp.shade0,
        ppu.bgp.shade1,
        ppu.bgp.shade2,
        ppu.bgp.shade3,
    );
    ppu.write_reg(0xFF47, 0b1110_0100).unwrap();
    let second = (
        ppu.bgp.shade0,
        ppu.bgp.shade1,
        ppu.bgp.shade2,
        ppu.bgp.shade3,
    );
    assert_eq!(first, second);
}

#[test]
fn palette_fields_decode_in_order() {
    let p = Palette::new(0b1110_0100);
    assert_eq!(p.shade0, Colors::White);
    assert_eq!(p.shade1, Colors::LightGray);
    assert_eq!(p.shade2, Colors::DarkGray);
    assert_eq!(p.shade3, Colors::Black);
    assert_eq!(p.to_argb(0), 0x00FF_FFFF);
    assert_eq!(p.to_argb(1), 0x00D3_D3D3);
    assert_eq!(p.to_argb(2), 0x00A9_A9A9);
    assert_eq!(p.to_argb(3), 0x0000_0000);
    assert_eq!(Palette::to_grayshade(2), Colors::DarkGray);
}

#[test]
fn rendered_scanline_reads_tile_data_through_the_palette() {
    let mut ppu = PPU::new();
    ppu.lcdc = 0x91; // LCD on, unsigned tile data, background on
    ppu.bgp = Palette::new(0b1110_0100);
    // tile 1: every row has the low bitplane 0xFF: color index 1
    for row in 0..8 {
        ppu.vram[16 + 2 * row] = 0xFF;
    }
    // the tile map names tile 1 for the first column
    ppu.vram[0x1800] = 1;
    ppu.set_mode(LCDMode::OAMSearch);
    ppu.cycles_remaining = 80;
    for _ in 0..456 {
        ppu.do_cycle();
    }
    // the first eight pixels of line zero show color index 1
    for x in 0..8 {
        assert_eq!(ppu.framebuffer[x], 0x00D3_D3D3);
    }
    // the ninth pixel comes from the all-zero tile 0: color index 0
    assert_eq!(ppu.framebuffer[8], 0x00FF_FFFF);
}

#[test]
fn timer_rates_follow_the_control_byte() {
    let t = Timer::new();
    assert_eq!(t.tac_cycles(), 1024);
    let mut t = Timer::new();
    t.write(0xFF07, 0b01);
    assert_eq!(t.tac_cycles(), 16);
    t.write(0xFF07, 0b10);
    assert_eq!(t.tac_cycles(), 64);
    t.write(0xFF07, 0b11);
    assert_eq!(t.tac_cycles(), 256);
}

#[test]
fn timer_divider_increments_every_256_cycles() {
    let mut t = Timer::new();
    for _ in 0..255 {
        t.do_cycles();
    }
    assert_eq!(t.read(0xFF04), 0);
    t.do_cycles();
    assert_eq!(t.read(0xFF04), 1);
    t.write(0xFF04, 0xAB); // any write resets the divider
    assert_eq!(t.read(0xFF04), 0);
}

#[test]
fn timer_counter_counts_only_when_enabled() {
    let mut t = Timer::new();
    t.write(0xFF07, 0b001); // rate 16, not enabled
    for _ in 0..64 {
        t.do_cycles();
    }
    assert_eq!(t.read(0xFF05), 0);
    t.write(0xFF07, 0b101); // rate 16, enabled
    for _ in 0..16 {
        t.do_cycles();
    }
    assert_eq!(t.read(0xFF05), 1);
}

#[test]
fn timer_overflow_reloads_and_requests_interrupt() {
    let mut t = Timer::new();
    t.write(0xFF07, 0b101); // rate 16, enabled
    t.write(0xFF05, 0xFF);
    t.write(0xFF06, 0xAB);
    let mut raised = false;
    for _ in 0..16 {
        if t.do_cycles() {
            raised = true;
        }
    }
    assert!(raised);
    assert_eq!(t.read(0xFF05), 0xAB);
}

#[test]
fn timer_overflow_raises_interrupt_flag_through_the_router() {
    let mut mmu = MMU::new(load_cartridge(vec![0u8; 0x8000]).unwrap());
    mmu.write(0xFF07, 0b101).unwrap();
    mmu.write(0xFF05, 0xFF).unwrap();
    mmu.write(0xFF06, 0x12).unwrap();
    for _ in 0..16 {
        mmu.do_cycle();
    }
    assert_eq!(mmu.read(0xFF0F).unwrap() & 0x04, 0x04);
    assert_eq!(mmu.read(0xFF05).unwrap(), 0x12);
}

#[test]
fn joypad_poll_rewrites_only_selected_groups() {
    let mut j = Joypad::new();
    // bits 4 and 5 low: both groups selected
    let keys = KeyInputs {
        down: false,
        up: false,
        left: false,
        right: true,
        start: false,
        select: false,
        b: false,
        a: false,
    };
    j.do_cycle(&keys);
    // the direction group wrote last: Right pressed drives bit 0 low,
    // the other three read high
    assert_eq!(j.read() & 0x0F, 0b1110);
    j.write(0xFF); // deselect both groups (only bits 7-3 stick)
    assert_eq!(j.read(), 0xF8);
    j.do_cycle(&keys);
    assert_eq!(j.read(), 0xF8);
}

#[test]
fn cartridge_title_stops_at_the_first_nul() {
    let mut rom = vec![0u8; 0x8000];
    let title = b"HELLO";
    for (i, b) in title.iter().enumerate() {
        rom[0x134 + i] = *b;
    }
    let cart = Cartridge::new(rom.clone()).unwrap();
    assert_eq!(cart.info.title, "HELLO");
    assert_eq!(cart.read(0x134), b'H');
    let info = CartridgeInfo::new(&rom);
    assert_eq!(info.title, cart.info.title);
}

#[test]
fn cartridge_title_is_bounded_by_the_field_length() {
    let mut rom = vec![0u8; 0x8000];
    // 17 non-NUL bytes: only the 16 of the field are the title
    for i in 0..17 {
        rom[0x134 + i] = b'A';
    }
    let info = CartridgeInfo::new(&rom);
    assert_eq!(info.title, "AAAAAAAAAAAAAAAA");
    assert_eq!(info.title.len(), 16);
}

#[test]
fn controller_name_field_length_follows_the_compat_flag() {
    // the 16-byte name field ends at the compatibility-flag byte, which
    // stays a valid flag here
    let mut rom = vec![0u8; 0x8000];
    for i in 0..15 {
        rom[0x134 + i] = b'B';
    }
    let mbc = load_cartridge(rom.clone()).unwrap();
    assert_eq!(mbc.rom_title(), "BBBBBBBBBBBBBBB");
    assert_eq!(mbc.rom_title().len(), 15);
    // the newer-hardware flag narrows the field to 11 bytes
    rom[0x143] = 0x80;
    let mbc = load_cartridge(rom).unwrap();
    assert_eq!(mbc.rom_title(), "BBBBBBBBBBB");
    assert_eq!(mbc.rom_title().len(), 11);
}

#[test]
fn decoder_formats_mnemonics_and_operands() {
    let mut rom = vec![0u8; 0x8000];
    rom[0] = 0x00;
    rom[1] = 0xAB;
    let mmu = MMU::new(load_cartridge(rom).unwrap());
    let regs = Registers::new();
    assert_eq!(decode_instruction(0x00, &mmu, &regs), "NOP");
    assert_eq!(decode_instruction(0x06, &mmu, &regs), "LD B, AB");
    assert_eq!(decode_instruction(0x05, &mmu, &regs), "DEC B (B = 0)");
    assert_eq!(decode_instruction(0xB7, &mmu, &regs), "OR A");
    assert_eq!(decode_instruction(0xD3, &mmu, &regs), "NOT IMPLEMENTED IN DECODER");
}

#[test]
fn decoder_formats_wide_and_signed_operands() {
    let mut rom = vec![0u8; 0x8000];
    rom[1] = 0x42;
    rom[2] = 0x00;
    let mmu = MMU::new(load_cartridge(rom).unwrap());
    let regs = Registers::new();
    assert_eq!(decode_instruction(0x21, &mmu, &regs), "LD HL,   42");
    assert_eq!(decode_instruction(0xC3, &mmu, &regs), "JP a16   42");
    assert_eq!(decode_instruction(0x18, &mmu, &regs), "JR 66");

    let mut rom2 = vec![0u8; 0x8000];
    rom2[1] = 0xFE;
    let mmu2 = MMU::new(load_cartridge(rom2).unwrap());
    assert_eq!(decode_instruction(0x18, &mmu2, &regs), "JR -2");
}

#[test]
fn formatters_pad_like_the_trace_expects() {
    assert_eq!(hex2(0x05), " 5");
    assert_eq!(hex2(0xAB), "AB");
    assert_eq!(hex4(0x0005), "   5");
    assert_eq!(hex4(0x00AB), "  AB");
    assert_eq!(hex4(0x0ABC), " ABC");
    assert_eq!(hex4(0xABCD), "ABCD");
    assert_eq!(dec_u8(0), "0");
    assert_eq!(dec_u8(42), "42");
    assert_eq!(dec_u8(255), "255");
    assert_eq!(dec_i8(-128), "-128");
    assert_eq!(dec_i8(127), "127");
}

#[test]
fn instruction_table_rows() {
    let nop = instruction_info(0x00).unwrap();
    assert_eq!(nop.name, "NOP");
    assert_eq!(nop.length, 1);
    assert_eq!(nop.cycles, 4);
    let ld = instruction_info(0x01).unwrap();
    assert_eq!(ld.length, 3);
    assert_eq!(ld.cycles, 12);
    assert!(instruction_info(0x02).is_none());
}
