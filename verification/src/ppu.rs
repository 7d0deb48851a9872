use vstd::prelude::*;
use crate::errors::EmuError;
use crate::palette::Palette;
use crate::palette::spec_argb;
use crate::palette::spec_palette;

verus! {

/// Width and height of the visible area, and the derived framebuffer size.
pub const VIEWPORT_WIDTH: usize = 160;

pub const VIEWPORT_HEIGHT: usize = 144;

pub const FRAMEBUFFER_SIZE: usize = 23040;

pub const VRAM_SIZE: usize = 0x2000;

pub const OAM_SIZE: usize = 160;

/// The four states of the pixel pipeline. The 2-bit mode field of the
/// status byte encodes them as 0, 1, 2, 3 in this declaration order.
#[derive(Clone, Copy, Debug, PartialEq, Eq, Structural)]
pub enum LCDMode {
    HBlank,
    VBlank,
    OAMSearch,
    Transfer,
}

/// The scanline-based pixel pipeline: LCD control and status bytes, scroll
/// and compare registers, the decoded background palette, the two object
/// palettes, window position, tile/tile-map memory, object-attribute
/// memory, the framebuffer under construction and the per-state
/// remaining-cycle counter.
pub struct PPU {
    pub lcdc: u8,
    pub stat: u8,
    pub scy: u8,
    pub scx: u8,
    pub ly: u8,
    pub lyc: u8,
    pub bgp: Palette,
    pub obp0: u8,
    pub obp1: u8,
    pub wy: u8,
    pub wx: u8,
    pub vram: Vec<u8>,
    pub oam: Vec<u8>,
    pub framebuffer: Vec<u32>,
    pub cycles_remaining: u32,
}

/// The mathematical model of the pipeline state.
#[verifier::ext_equal]
pub ghost struct PpuView {
    pub lcdc: u8,
    pub stat: u8,
    pub scy: u8,
    pub scx: u8,
    pub ly: u8,
    pub lyc: u8,
    pub bgp: Palette,
    pub obp0: u8,
    pub obp1: u8,
    pub wy: u8,
    pub wx: u8,
    pub vram: Seq<u8>,
    pub oam: Seq<u8>,
    pub fb: Seq<u32>,
    pub cycles_remaining: u32,
}

impl View for PPU {
    type V = PpuView;

    open spec fn view(&self) -> PpuView {
        PpuView {
            lcdc: self.lcdc,
            stat: self.stat,
            scy: self.scy,
            scx: self.scx,
            ly: self.ly,
            lyc: self.lyc,
            bgp: self.bgp,
            obp0: self.obp0,
            obp1: self.obp1,
            wy: self.wy,
            wx: self.wx,
            vram: self.vram@,
            oam: self.oam@,
            fb: self.framebuffer@,
            cycles_remaining: self.cycles_remaining,
        }
    }
}

impl PpuView {
    /// The memory arrays have their fixed hardware sizes.
    pub open spec fn wf(self) -> bool {
        &&& self.vram.len() == VRAM_SIZE
        &&& self.oam.len() == OAM_SIZE
        &&& self.fb.len() == FRAMEBUFFER_SIZE
    }
}

/// The mode encoded in the low two bits of the status byte.
pub open spec fn spec_mode(p: PpuView) -> LCDMode {
    if p.stat % 4 == 0 {
        LCDMode::HBlank
    } else if p.stat % 4 == 1 {
        LCDMode::VBlank
    } else if p.stat % 4 == 2 {
        LCDMode::OAMSearch
    } else {
        LCDMode::Transfer
    }
}

/// The 2-bit encoding of a mode.
pub open spec fn spec_mode_bits(m: LCDMode) -> u8 {
    match m {
        LCDMode::HBlank => 0,
        LCDMode::VBlank => 1,
        LCDMode::OAMSearch => 2,
        LCDMode::Transfer => 3,
    }
}

/// The pipeline with the mode field of the status byte replaced.
pub open spec fn spec_set_mode(p: PpuView, m: LCDMode) -> PpuView {
    PpuView { stat: (p.stat / 4 * 4 + spec_mode_bits(m)) as u8, ..p }
}

/// The full duration of a state, in cycles (for V-Blank: per blank line).
pub open spec fn spec_mode_duration(m: LCDMode) -> u32 {
    match m {
        LCDMode::OAMSearch => 80,
        LCDMode::Transfer => 172,
        LCDMode::HBlank => 204,
        LCDMode::VBlank => 456,
    }
}

pub open spec fn spec_lcd_disabled(p: PpuView) -> bool {
    p.lcdc < 128
}

pub open spec fn spec_bg_enabled(p: PpuView) -> bool {
    p.lcdc % 2 == 1
}

/// VRAM is open to router accesses outside the Transfer state, or always
/// while the LCD is disabled.
pub open spec fn spec_vram_accessible(p: PpuView) -> bool {
    spec_mode(p) != LCDMode::Transfer || spec_lcd_disabled(p)
}

/// OAM is open to router accesses only in H-Blank and V-Blank, or always
/// while the LCD is disabled.
pub open spec fn spec_oam_accessible(p: PpuView) -> bool {
    spec_mode(p) == LCDMode::HBlank || spec_mode(p) == LCDMode::VBlank || spec_lcd_disabled(p)
}

/// A gated VRAM read: the byte while accessible, else the sentinel 0xFF.
pub open spec fn spec_read_vram(p: PpuView, addr: u16) -> u8 {
    if spec_vram_accessible(p) {
        p.vram[addr - 0x8000]
    } else {
        0xFF
    }
}

/// A gated VRAM write: stored while accessible, else silently dropped.
pub open spec fn spec_write_vram(p: PpuView, addr: u16, val: u8) -> PpuView {
    if spec_vram_accessible(p) {
        PpuView { vram: p.vram.update(addr - 0x8000, val), ..p }
    } else {
        p
    }
}

/// A gated OAM read: the byte while accessible, else the sentinel 0xFF.
pub open spec fn spec_read_oam(p: PpuView, addr: u16) -> u8 {
    if spec_oam_accessible(p) {
        p.oam[addr - 0xFE00]
    } else {
        0xFF
    }
}

/// A gated OAM write: stored while accessible, else silently dropped.
pub open spec fn spec_write_oam(p: PpuView, addr: u16, val: u8) -> PpuView {
    if spec_oam_accessible(p) {
        PpuView { oam: p.oam.update(addr - 0xFE00, val), ..p }
    } else {
        p
    }
}

/// A pipeline register read. The transfer-trigger register at 0xFF46 is
/// recognized but not backed.
pub open spec fn spec_read_reg(p: PpuView, addr: u16) -> Result<u8, EmuError> {
    if addr == 0xFF40 {
        Ok(p.lcdc)
    } else if addr == 0xFF41 {
        Ok(p.stat)
    } else if addr == 0xFF42 {
        Ok(p.scy)
    } else if addr == 0xFF43 {
        Ok(p.scx)
    } else if addr == 0xFF44 {
        Ok(p.ly)
    } else if addr == 0xFF45 {
        Ok(p.lyc)
    } else if addr == 0xFF47 {
        Ok(p.bgp.register)
    } else if addr == 0xFF48 {
        Ok(p.obp0)
    } else if addr == 0xFF49 {
        Ok(p.obp1)
    } else if addr == 0xFF4A {
        Ok(p.wy)
    } else if addr == 0xFF4B {
        Ok(p.wx)
    } else {
        Err(EmuError::UnimplementedRegion(addr))
    }
}

/// A pipeline register write. The scanline counter at 0xFF44 is read-only
/// to software, so that write is dropped; a palette write re-decodes the
/// palette immediately.
pub open spec fn spec_write_reg(p: PpuView, addr: u16, val: u8) -> Result<PpuView, EmuError> {
    if addr == 0xFF40 {
        Ok(PpuView { lcdc: val, ..p })
    } else if addr == 0xFF41 {
        Ok(PpuView { stat: val, ..p })
    } else if addr == 0xFF42 {
        Ok(PpuView { scy: val, ..p })
    } else if addr == 0xFF43 {
        Ok(PpuView { scx: val, ..p })
    } else if addr == 0xFF44 {
        Ok(p)
    } else if addr == 0xFF45 {
        Ok(PpuView { lyc: val, ..p })
    } else if addr == 0xFF47 {
        Ok(PpuView { bgp: spec_palette(val), ..p })
    } else if addr == 0xFF48 {
        Ok(PpuView { obp0: val, ..p })
    } else if addr == 0xFF49 {
        Ok(PpuView { obp1: val, ..p })
    } else if addr == 0xFF4A {
        Ok(PpuView { wy: val, ..p })
    } else if addr == 0xFF4B {
        Ok(PpuView { wx: val, ..p })
    } else {
        Err(EmuError::UnimplementedRegion(addr))
    }
}

/// The value of bit `k` (0 to 7) as a byte: 1, 2, 4, ..., 128.
pub open spec fn spec_bit_value(k: int) -> int {
    if k == 0 {
        1
    } else if k == 1 {
        2
    } else if k == 2 {
        4
    } else if k == 3 {
        8
    } else if k == 4 {
        16
    } else if k == 5 {
        32
    } else if k == 6 {
        64
    } else {
        128
    }
}

/// The base offset within VRAM of the active background tile map,
/// selected by bit 3 of the control byte.
pub open spec fn spec_tilemap_offset(p: PpuView) -> int {
    if (p.lcdc / 8) % 2 == 1 {
        0x1C00
    } else {
        0x1800
    }
}

/// The offset within VRAM of the first byte of the tile named by a tile-map
/// entry, honoring the indexing mode selected by bit 4 of the control byte:
/// unsigned indices against the 0x8000 base, or signed indices against the
/// 0x9000 base.
pub open spec fn spec_tile_offset(p: PpuView, tile_idx: u8) -> int {
    if (p.lcdc / 16) % 2 == 1 {
        tile_idx * 16
    } else {
        if tile_idx < 128 {
            0x1000 + tile_idx * 16
        } else {
            0x1000 + (tile_idx - 256) * 16
        }
    }
}

/// The ARGB value of background pixel `n` (0 to 159) of the scanline `p.ly`:
/// the scrolled position selects a tile-map entry, the named tile's two
/// bitplane bytes for the row are read, bit `7 - x_in_tile` of each plane
/// gives the 2-bit color index (low plane is bit 0), and the background
/// palette maps it to a shade. With the background disabled every pixel
/// shows the shade of color index 0.
pub open spec fn spec_bg_pixel(p: PpuView, n: int) -> u32 {
    if !spec_bg_enabled(p) {
        spec_argb(p.bgp.spec_shade(0))
    } else {
        let xpos = (p.scx + n) % 256;
        let ypos = (p.scy + p.ly) % 256;
        let map_index = spec_tilemap_offset(p) + (ypos / 8) * 32 + xpos / 8;
        let tile_idx = p.vram[map_index];
        let toff = spec_tile_offset(p, tile_idx);
        let lo = p.vram[toff + 2 * (ypos % 8)];
        let hi = p.vram[toff + 2 * (ypos % 8) + 1];
        let bit = spec_bit_value(7 - xpos % 8);
        let ci = (((lo as int) / bit) % 2 + 2 * (((hi as int) / bit) % 2)) as u8;
        spec_argb(p.bgp.spec_shade(ci))
    }
}

/// The pipeline after rendering the current scanline into the framebuffer.
/// A scanline outside the visible area writes no pixels.
pub open spec fn spec_render_line(p: PpuView) -> PpuView {
    if p.ly < 144 {
        PpuView {
            fb: Seq::new(
                p.fb.len(),
                |i: int|
                    if p.ly * 160 <= i < p.ly * 160 + 160 {
                        spec_bg_pixel(p, i - p.ly * 160)
                    } else {
                        p.fb[i]
                    },
            ),
            ..p
        }
    } else {
        p
    }
}

/// One state action and transition of the pipeline, from the table of
/// states: OAM-Search only transitions; Transfer renders the scanline;
/// H-Blank advances the line counter and selects V-Blank after the last
/// visible line; V-Blank advances through the blank lines and, once the
/// counter exceeds 153, resets it to zero, flushes the frame (the boolean)
/// and restarts the scan. The new state's full duration is loaded.
pub open spec fn spec_ppu_step(p: PpuView) -> (PpuView, bool) {
    match spec_mode(p) {
        LCDMode::OAMSearch => (
            PpuView { cycles_remaining: 172, ..spec_set_mode(p, LCDMode::Transfer) },
            false,
        ),
        LCDMode::Transfer => (
            PpuView {
                cycles_remaining: 204,
                ..spec_set_mode(spec_render_line(p), LCDMode::HBlank)
            },
            false,
        ),
        LCDMode::HBlank => {
            let next = if p.ly == 143 {
                LCDMode::VBlank
            } else {
                LCDMode::OAMSearch
            };
            (
                PpuView {
                    ly: ((p.ly + 1) % 256) as u8,
                    cycles_remaining: spec_mode_duration(next),
                    ..spec_set_mode(p, next)
                },
                false,
            )
        },
        LCDMode::VBlank => {
            let ly1 = ((p.ly + 1) % 256) as u8;
            if ly1 > 153 {
                (
                    PpuView {
                        ly: 0,
                        cycles_remaining: 80,
                        ..spec_set_mode(p, LCDMode::OAMSearch)
                    },
                    true,
                )
            } else {
                (PpuView { ly: ly1, cycles_remaining: 456, ..p }, false)
            }
        },
    }
}

/// One cycle of the pipeline: frozen while the LCD is disabled; otherwise
/// the remaining-cycle counter counts down and, on reaching zero, the
/// state's action and transition run. The boolean reports a framebuffer
/// flush.
pub open spec fn spec_ppu_tick(p: PpuView) -> (PpuView, bool) {
    if spec_lcd_disabled(p) {
        (p, false)
    } else if p.cycles_remaining <= 1 {
        spec_ppu_step(p)
    } else {
        (PpuView { cycles_remaining: (p.cycles_remaining - 1) as u32, ..p }, false)
    }
}

impl PPU {
    /// The reset state of the pipeline: registers cleared, memories zero,
    /// framebuffer all lightest shade.
    pub open spec fn new_spec_view() -> PpuView {
        PpuView {
            lcdc: 0u8,
            stat: 0u8,
            scy: 0u8,
            scx: 0u8,
            ly: 0u8,
            lyc: 0u8,
            bgp: spec_palette(0),
            obp0: 0u8,
            obp1: 0u8,
            wy: 0u8,
            wx: 0u8,
            vram: Seq::new(VRAM_SIZE as nat, |i: int| 0u8),
            oam: Seq::new(OAM_SIZE as nat, |i: int| 0u8),
            fb: Seq::new(FRAMEBUFFER_SIZE as nat, |i: int| 0x00FF_FFFFu32),
            cycles_remaining: 0u32,
        }
    }

    pub fn new() -> (r: PPU)
        ensures
            r@ == PPU::new_spec_view(),
            r@.wf(),
    {
        let r = PPU {
            lcdc: 0x00,
            stat: 0x00,
            scy: 0x00,
            scx: 0x00,
            ly: 0x00,
            lyc: 0x00,
            bgp: Palette::new(0),
            obp0: 0x00,
            obp1: 0x00,
            wy: 0x00,
            wx: 0x00,
            vram: vec![0u8; VRAM_SIZE],
            oam: vec![0u8; OAM_SIZE],
            framebuffer: vec![0x00FF_FFFFu32; FRAMEBUFFER_SIZE],
            cycles_remaining: 0,
        };
        proof {
            assert(r@.vram =~= Seq::new(VRAM_SIZE as nat, |i: int| 0u8));
            assert(r@.oam =~= Seq::new(OAM_SIZE as nat, |i: int| 0u8));
            assert(r@.fb =~= Seq::new(FRAMEBUFFER_SIZE as nat, |i: int| 0x00FF_FFFFu32));
        }
        r
    }

    pub fn read_reg(&self, addr: u16) -> (r: Result<u8, EmuError>)
        requires
            0xFF40 <= addr <= 0xFF4B,
        ensures
            r == spec_read_reg(self@, addr),
    {
        if addr == 0xFF40 {
            Ok(self.lcdc)
        } else if addr == 0xFF41 {
            Ok(self.stat)
        } else if addr == 0xFF42 {
            Ok(self.scy)
        } else if addr == 0xFF43 {
            Ok(self.scx)
        } else if addr == 0xFF44 {
            Ok(self.ly)
        } else if addr == 0xFF45 {
            Ok(self.lyc)
        } else if addr == 0xFF47 {
            Ok(self.bgp.register)
        } else if addr == 0xFF48 {
            Ok(self.obp0)
        } else if addr == 0xFF49 {
            Ok(self.obp1)
        } else if addr == 0xFF4A {
            Ok(self.wy)
        } else if addr == 0xFF4B {
            Ok(self.wx)
        } else {
            Err(EmuError::UnimplementedRegion(addr))
        }
    }

    pub fn write_reg(&mut self, addr: u16, val: u8) -> (r: Result<(), EmuError>)
        requires
            0xFF40 <= addr <= 0xFF4B,
        ensures
            match r {
                Ok(()) => spec_write_reg(old(self)@, addr, val) == Ok::<PpuView, EmuError>(
                    final(self)@,
                ),
                Err(e) => {
                    &&& spec_write_reg(old(self)@, addr, val) == Err::<PpuView, EmuError>(e)
                    &&& final(self)@ == old(self)@
                },
            },
    {
        if addr == 0xFF40 {
            self.lcdc = val;
        } else if addr == 0xFF41 {
            self.stat = val;
        } else if addr == 0xFF42 {
            self.scy = val;
        } else if addr == 0xFF43 {
            self.scx = val;
        } else if addr == 0xFF44 {
            // the scanline counter is read-only to software
        } else if addr == 0xFF45 {
            self.lyc = val;
        } else if addr == 0xFF47 {
            self.bgp = Palette::new(val);
        } else if addr == 0xFF48 {
            self.obp0 = val;
        } else if addr == 0xFF49 {
            self.obp1 = val;
        } else if addr == 0xFF4A {
            self.wy = val;
        } else if addr == 0xFF4B {
            self.wx = val;
        } else {
            return Err(EmuError::UnimplementedRegion(addr));
        }
        Ok(())
    }

    pub fn read_vram(&self, addr: u16) -> (r: u8)
        requires
            self@.wf(),
            0x8000 <= addr < 0xA000,
        ensures
            r == spec_read_vram(self@, addr),
    {
        if self.is_vram_accessible() {
            self.vram[(addr - 0x8000) as usize]
        } else {
            0xFF
        }
    }

    pub fn write_vram(&mut self, addr: u16, val: u8)
        requires
            old(self)@.wf(),
            0x8000 <= addr < 0xA000,
        ensures
            final(self)@ == spec_write_vram(old(self)@, addr, val),
            final(self)@.wf(),
    {
        if self.is_vram_accessible() {
            let index = (addr - 0x8000) as usize;
            self.vram.set(index, val);
        }
    }

    pub fn read_oam(&self, addr: u16) -> (r: u8)
        requires
            self@.wf(),
            0xFE00 <= addr < 0xFEA0,
        ensures
            r == spec_read_oam(self@, addr),
    {
        if self.is_oam_accessible() {
            self.oam[(addr - 0xFE00) as usize]
        } else {
            0xFF
        }
    }

    pub fn write_oam(&mut self, addr: u16, val: u8)
        requires
            old(self)@.wf(),
            0xFE00 <= addr < 0xFEA0,
        ensures
            final(self)@ == spec_write_oam(old(self)@, addr, val),
            final(self)@.wf(),
    {
        if self.is_oam_accessible() {
            let index = (addr - 0xFE00) as usize;
            self.oam.set(index, val);
        }
    }

    pub fn is_vram_accessible(&self) -> (r: bool)
        ensures
            r == spec_vram_accessible(self@),
    {
        match self.get_mode() {
            LCDMode::HBlank | LCDMode::VBlank | LCDMode::OAMSearch => true,
            LCDMode::Transfer => self.is_lcd_disabled(),
        }
    }

    pub fn is_oam_accessible(&self) -> (r: bool)
        ensures
            r == spec_oam_accessible(self@),
    {
        match self.get_mode() {
            LCDMode::HBlank | LCDMode::VBlank => true,
            LCDMode::OAMSearch | LCDMode::Transfer => self.is_lcd_disabled(),
        }
    }

    pub fn is_lcd_disabled(&self) -> (r: bool)
        ensures
            r == spec_lcd_disabled(self@),
    {
        self.lcdc < 128
    }

    pub fn is_bg_enabled(&self) -> (r: bool)
        ensures
            r == spec_bg_enabled(self@),
    {
        self.lcdc % 2 == 1
    }

    pub fn get_mode(&self) -> (m: LCDMode)
        ensures
            m == spec_mode(self@),
    {
        let bits = self.stat % 4;
        if bits == 0 {
            LCDMode::HBlank
        } else if bits == 1 {
            LCDMode::VBlank
        } else if bits == 2 {
            LCDMode::OAMSearch
        } else {
            LCDMode::Transfer
        }
    }

    pub fn set_mode(&mut self, mode: LCDMode)
        ensures
            *final(self) == (PPU { stat: spec_set_mode(old(self)@, mode).stat, ..*old(self) }),
    {
        let bits: u8 = match mode {
            LCDMode::HBlank => 0,
            LCDMode::VBlank => 1,
            LCDMode::OAMSearch => 2,
            LCDMode::Transfer => 3,
        };
        self.stat = self.stat / 4 * 4 + bits;
    }

    fn is_mode_finished(&self) -> (r: bool)
        ensures
            r == (self.cycles_remaining <= 1),
    {
        self.cycles_remaining <= 1
    }

    /// One cycle of the pipeline; returns whether a finished frame was
    /// flushed to the display sink on this cycle.
    pub fn do_cycle(&mut self) -> (flush: bool)
        requires
            old(self)@.wf(),
        ensures
            final(self)@ == spec_ppu_tick(old(self)@).0,
            flush == spec_ppu_tick(old(self)@).1,
            final(self)@.wf(),
    {
        if self.is_lcd_disabled() {
            return false;
        }

        if self.is_mode_finished() {
            self.step_through_modes()
        } else {
            self.cycles_remaining = self.cycles_remaining - 1;
            false
        }
    }

    /// Performs the current state's action and transition and loads the new
    /// state's full duration; returns whether a frame was flushed.
    fn step_through_modes(&mut self) -> (flush: bool)
        requires
            old(self)@.wf(),
        ensures
            final(self)@ == spec_ppu_step(old(self)@).0,
            flush == spec_ppu_step(old(self)@).1,
            final(self)@.wf(),
    {
        match self.get_mode() {
            LCDMode::OAMSearch => {
                // the sprite scan is out of scope: transition only
                self.set_mode(LCDMode::Transfer);
                self.cycles_remaining = 172;
                false
            },
            LCDMode::Transfer => {
                self.render_bg_line();
                self.set_mode(LCDMode::HBlank);
                self.cycles_remaining = 204;
                false
            },
            LCDMode::HBlank => {
                if self.ly == 143 {
                    self.set_mode(LCDMode::VBlank);
                    self.cycles_remaining = 456;
                } else {
                    self.set_mode(LCDMode::OAMSearch);
                    self.cycles_remaining = 80;
                }
                if self.ly == 255 {
                    self.ly = 0;
                } else {
                    self.ly = self.ly + 1;
                }
                false
            },
            LCDMode::VBlank => {
                let ly1: u8 = if self.ly == 255 {
                    0
                } else {
                    self.ly + 1
                };
                if ly1 > 153 {
                    self.ly = 0;
                    self.set_mode(LCDMode::OAMSearch);
                    self.cycles_remaining = 80;
                    true
                } else {
                    self.ly = ly1;
                    self.cycles_remaining = 456;
                    false
                }
            },
        }
    }

    /// Renders the 160 background pixels of the current scanline into the
    /// framebuffer, per the scrolled tile-map/tile-data lookup of
    /// `spec_bg_pixel`.
    fn render_bg_line(&mut self)
        requires
            old(self)@.wf(),
        ensures
            final(self)@ == spec_render_line(old(self)@),
            final(self)@.wf(),
    {
        if self.ly >= 144 {
            return;
        }

        let base: usize = (self.ly as usize) * 160;
        let mut n: usize = 0;
        while n < 160
            invariant
                old(self)@.wf(),
                self@.wf(),
                n <= 160,
                old(self).ly < 144,
                base == old(self).ly * 160,
                *self == (PPU { framebuffer: self.framebuffer, ..*old(self) }),
                self.framebuffer@.len() == FRAMEBUFFER_SIZE,
                forall|i: int|
                    0 <= i < FRAMEBUFFER_SIZE && !(base <= i < base + n)
                        ==> self.framebuffer@[i] == old(self).framebuffer@[i],
                forall|j: int|
                    0 <= j < n ==> self.framebuffer@[base + j] == spec_bg_pixel(old(self)@, j),
            decreases 160 - n,
        {
            let pixel = self.bg_pixel_at(n);
            proof {
                assert(old(self)@ =~= (PpuView { fb: old(self).framebuffer@, ..self@ }));
                assert(spec_bg_pixel((PpuView { fb: old(self).framebuffer@, ..self@ }), n as int)
                    == spec_bg_pixel(self@, n as int)) by {
                    lemma_bg_pixel_ignores_fb(self@, old(self).framebuffer@, n as int);
                }
            }
            self.framebuffer.set(base + n, pixel);
            n = n + 1;
        }
        proof {
            assert(self@.fb =~= spec_render_line(old(self)@).fb);
            assert(self@ =~= spec_render_line(old(self)@));
        }
    }

    /// The ARGB value of one background pixel of the current scanline.
    fn bg_pixel_at(&self, n: usize) -> (pixel: u32)
        requires
            self@.wf(),
            n < 160,
        ensures
            pixel == spec_bg_pixel(self@, n as int),
    {
        if !self.is_bg_enabled() {
            return self.bgp.to_argb(0);
        }

        let xpos: u16 = (self.scx as u16 + n as u16) % 256;
        let ypos: u16 = (self.scy as u16 + self.ly as u16) % 256;

        let map_base: usize = if (self.lcdc / 8) % 2 == 1 {
            0x1C00
        } else {
            0x1800
        };
        let map_index: usize = map_base + (ypos as usize / 8) * 32 + (xpos as usize / 8);
        let tile_idx = self.vram[map_index];

        let toff: usize = if (self.lcdc / 16) % 2 == 1 {
            (tile_idx as usize) * 16
        } else {
            if tile_idx < 128 {
                0x1000 + (tile_idx as usize) * 16
            } else {
                0x1000 + (tile_idx as usize) * 16 - 4096
            }
        };

        let fine_y: usize = (ypos as usize) % 8;
        let lo = self.vram[toff + 2 * fine_y];
        let hi = self.vram[toff + 2 * fine_y + 1];

        let bit: u8 = match 7 - (xpos % 8) {
            0 => 1,
            1 => 2,
            2 => 4,
            3 => 8,
            4 => 16,
            5 => 32,
            6 => 64,
            _ => 128,
        };

        let ci: u8 = (lo / bit) % 2 + 2 * ((hi / bit) % 2);
        self.bgp.to_argb(ci)
    }
}

/// The pipeline state and the number of framebuffer flushes after `n`
/// cycles.
pub open spec fn spec_ppu_run(p: PpuView, n: nat) -> (PpuView, nat)
    decreases n,
{
    if n == 0 {
        (p, 0)
    } else {
        let t = spec_ppu_tick(p);
        let r = spec_ppu_run(t.0, (n - 1) as nat);
        (r.0, (r.1 + if t.1 { 1int } else { 0int }) as nat)
    }
}

/// Running is additive: `a + b` cycles are `a` cycles and then `b` more,
/// and the flush counts add up.
pub proof fn lemma_run_add(p: PpuView, a: nat, b: nat)
    ensures
        spec_ppu_run(p, (a + b) as nat).0 == spec_ppu_run(spec_ppu_run(p, a).0, b).0,
        spec_ppu_run(p, (a + b) as nat).1 == spec_ppu_run(p, a).1 + spec_ppu_run(
            spec_ppu_run(p, a).0,
            b,
        ).1,
    decreases a,
{
    if a > 0 {
        lemma_run_add(spec_ppu_tick(p).0, (a - 1) as nat, b);
    }
}

/// The state action and transition read nothing from the remaining-cycle
/// counter.
proof fn lemma_step_ignores_cr(p: PpuView, c: u32)
    ensures
        spec_ppu_step((PpuView { cycles_remaining: c, ..p })).0 == spec_ppu_step(p).0,
        spec_ppu_step((PpuView { cycles_remaining: c, ..p })).1 == spec_ppu_step(p).1,
{
    let q = PpuView { cycles_remaining: c, ..p };
    assert(spec_render_line(q).fb =~= spec_render_line(p).fb);
    assert(spec_ppu_step(q).0 =~= spec_ppu_step(p).0);
}

/// Replacing the mode field of the status byte reads back that mode and
/// touches nothing else.
proof fn lemma_set_mode_reads(p: PpuView, m: LCDMode)
    ensures
        spec_mode(spec_set_mode(p, m)) == m,
{
    let b = spec_mode_bits(m);
    assert((p.stat / 4 * 4 + b) % 4 == b) by (nonlinear_arith)
        requires
            b < 4,
            p.stat < 256,
    {
    }
}

/// While the LCD is enabled and the counter reads `k` at least 1, exactly
/// `k` cycles bring the pipeline to the current state's action and
/// transition, with nothing else in between.
proof fn lemma_run_countdown(p: PpuView, k: u32)
    requires
        !spec_lcd_disabled(p),
        p.cycles_remaining == k,
        k >= 1,
    ensures
        spec_ppu_run(p, k as nat).0 == spec_ppu_step(p).0,
        spec_ppu_run(p, k as nat).1 == (if spec_ppu_step(p).1 {
            1int
        } else {
            0int
        }),
    decreases k,
{
    if k == 1 {
        reveal_with_fuel(spec_ppu_run, 2);
    } else {
        let p1 = spec_ppu_tick(p).0;
        lemma_run_countdown(p1, (k - 1) as u32);
        lemma_step_ignores_cr(p, (k - 1) as u32);
        assert(p1 == (PpuView { cycles_remaining: (k - 1) as u32, ..p }));
    }
}

/// Pixel-pipeline timing: from the start of OAM-Search with the LCD
/// enabled, exactly 80 + 172 + 204 = 456 cycles complete one scanline:
/// the line counter advances by one, no frame is flushed, and the
/// pipeline stands at the start of the next state's window (OAM-Search
/// again below the last visible line, V-Blank after it).
pub proof fn lemma_scanline_timing(p: PpuView)
    requires
        !spec_lcd_disabled(p),
        spec_mode(p) == LCDMode::OAMSearch,
        p.cycles_remaining == 80,
        p.ly <= 143,
    ensures
        spec_ppu_run(p, 456).0.ly == p.ly + 1,
        spec_ppu_run(p, 456).1 == 0,
        spec_mode(spec_ppu_run(p, 456).0) == (if p.ly == 143 {
            LCDMode::VBlank
        } else {
            LCDMode::OAMSearch
        }),
        spec_ppu_run(p, 456).0.cycles_remaining == (if p.ly == 143 {
            456int
        } else {
            80int
        }),
        spec_ppu_run(p, 456).0.lcdc == p.lcdc,
{
    lemma_run_countdown(p, 80);
    let p1 = spec_ppu_step(p).0;
    lemma_set_mode_reads(p, LCDMode::Transfer);
    lemma_run_countdown(p1, 172);
    let p2 = spec_ppu_step(p1).0;
    lemma_set_mode_reads(spec_render_line(p1), LCDMode::HBlank);
    lemma_run_countdown(p2, 204);
    let p3 = spec_ppu_step(p2).0;
    if p2.ly == 143 {
        lemma_set_mode_reads(p2, LCDMode::VBlank);
    } else {
        lemma_set_mode_reads(p2, LCDMode::OAMSearch);
    }
    lemma_run_add(p, 80, 376);
    lemma_run_add(p1, 172, 204);
}

/// Running whole visible scanlines in a row: from the start of OAM-Search
/// at line `ly`, `k` scanlines' worth of cycles advance the line counter
/// by `k` with no flush, ending at the start of OAM-Search again, or of
/// V-Blank when the last visible line was just completed.
proof fn lemma_visible_lines(p: PpuView, k: nat)
    requires
        !spec_lcd_disabled(p),
        spec_mode(p) == LCDMode::OAMSearch,
        p.cycles_remaining == 80,
        p.ly <= 143,
        p.ly + k <= 144,
    ensures
        spec_ppu_run(p, (k * 456) as nat).0.ly == p.ly + k,
        spec_ppu_run(p, (k * 456) as nat).1 == 0,
        spec_ppu_run(p, (k * 456) as nat).0.lcdc == p.lcdc,
        p.ly + k <= 143 ==> spec_mode(spec_ppu_run(p, (k * 456) as nat).0)
            == LCDMode::OAMSearch && spec_ppu_run(p, (k * 456) as nat).0.cycles_remaining
            == 80,
        p.ly + k == 144 ==> spec_mode(spec_ppu_run(p, (k * 456) as nat).0) == LCDMode::VBlank
            && spec_ppu_run(p, (k * 456) as nat).0.cycles_remaining == 456,
    decreases k,
{
    if k == 0 {
        assert(spec_ppu_run(p, 0).0 == p);
    } else if k == 1 {
        lemma_scanline_timing(p);
        assert(k * 456 == 456) by (nonlinear_arith)
            requires
                k == 1,
        {
        }
    } else {
        lemma_scanline_timing(p);
        let p1 = spec_ppu_run(p, 456).0;
        lemma_visible_lines(p1, (k - 1) as nat);
        lemma_run_add(p, 456, ((k - 1) * 456) as nat);
        assert(456 + (k - 1) * 456 == k * 456) by (nonlinear_arith);
    }
}

/// One blank line: from the start of a V-Blank line below the last one,
/// 456 cycles advance the line counter by one and stay in V-Blank.
proof fn lemma_blank_line(p: PpuView)
    requires
        !spec_lcd_disabled(p),
        spec_mode(p) == LCDMode::VBlank,
        p.cycles_remaining == 456,
        144 <= p.ly <= 152,
    ensures
        spec_ppu_run(p, 456).0.ly == p.ly + 1,
        spec_ppu_run(p, 456).1 == 0,
        spec_mode(spec_ppu_run(p, 456).0) == LCDMode::VBlank,
        spec_ppu_run(p, 456).0.cycles_remaining == 456,
        spec_ppu_run(p, 456).0.lcdc == p.lcdc,
{
    lemma_run_countdown(p, 456);
}

/// Running the remaining blank lines in a row.
proof fn lemma_blank_lines(p: PpuView, k: nat)
    requires
        !spec_lcd_disabled(p),
        spec_mode(p) == LCDMode::VBlank,
        p.cycles_remaining == 456,
        144 <= p.ly,
        p.ly + k <= 153,
    ensures
        spec_ppu_run(p, (k * 456) as nat).0.ly == p.ly + k,
        spec_ppu_run(p, (k * 456) as nat).1 == 0,
        spec_mode(spec_ppu_run(p, (k * 456) as nat).0) == LCDMode::VBlank,
        spec_ppu_run(p, (k * 456) as nat).0.cycles_remaining == 456,
        spec_ppu_run(p, (k * 456) as nat).0.lcdc == p.lcdc,
    decreases k,
{
    if k == 0 {
        assert(spec_ppu_run(p, 0).0 == p);
    } else {
        lemma_blank_line(p);
        let p1 = spec_ppu_run(p, 456).0;
        lemma_blank_lines(p1, (k - 1) as nat);
        lemma_run_add(p, 456, ((k - 1) * 456) as nat);
        assert(456 + (k - 1) * 456 == k * 456) by (nonlinear_arith);
    }
}

/// Frame boundary: from the start of OAM-Search at line zero with the LCD
/// enabled, 154 scanlines' worth of cycles (144 visible and 10 blank
/// lines, 154 * 456 = 70224 cycles) return the line counter to zero,
/// restart the scan at OAM-Search, and flush the framebuffer to the
/// display sink exactly once.
pub proof fn lemma_frame_timing(p: PpuView)
    requires
        !spec_lcd_disabled(p),
        spec_mode(p) == LCDMode::OAMSearch,
        p.cycles_remaining == 80,
        p.ly == 0,
    ensures
        spec_ppu_run(p, 70224).0.ly == 0,
        spec_ppu_run(p, 70224).1 == 1,
        spec_mode(spec_ppu_run(p, 70224).0) == LCDMode::OAMSearch,
        spec_ppu_run(p, 70224).0.cycles_remaining == 80,
{
    lemma_visible_lines(p, 144);
    let p1 = spec_ppu_run(p, 65664).0;
    lemma_blank_lines(p1, 9);
    let p2 = spec_ppu_run(p1, 4104).0;
    assert(p2.ly == 153);
    lemma_run_countdown(p2, 456);
    let p3 = spec_ppu_step(p2).0;
    lemma_set_mode_reads(p2, LCDMode::OAMSearch);
    lemma_run_add(p, 65664, 4560);
    lemma_run_add(p1, 4104, 456);
}

/// Palette decode is idempotent: writing the same palette byte twice
/// yields the same four decoded shades as writing it once.
pub proof fn lemma_palette_write_idempotent(p: PpuView, b: u8)
    ensures
        match spec_write_reg(p, 0xFF47, b) {
            Ok(p1) => spec_write_reg(p1, 0xFF47, b) == Ok::<PpuView, EmuError>(p1),
            Err(_) => false,
        },
{
    match spec_write_reg(p, 0xFF47, b) {
        Ok(p1) => {
            assert(spec_write_reg(p1, 0xFF47, b) matches Ok(p2) && p2 =~= p1);
        },
        Err(_) => {
            assert(false);
        },
    }
}

/// The rendered value of a pixel does not depend on the framebuffer
/// contents.
proof fn lemma_bg_pixel_ignores_fb(p: PpuView, fb: Seq<u32>, n: int)
    ensures
        spec_bg_pixel((PpuView { fb, ..p }), n) == spec_bg_pixel(p, n),
{
}

} // verus!
