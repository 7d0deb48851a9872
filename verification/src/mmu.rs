use vstd::prelude::*;
use crate::errors::EmuError;
use crate::joypad::Joypad;
use crate::mbc::mbc0::MBC0;
use crate::mbc::mbc0::spec_mbc0_read_rom;
use crate::ppu::PPU;
use crate::ppu::PpuView;
use crate::ppu::spec_ppu_tick;
use crate::ppu::spec_read_oam;
use crate::ppu::spec_read_reg;
use crate::ppu::spec_read_vram;
use crate::ppu::spec_write_oam;
use crate::ppu::spec_write_reg;
use crate::ppu::spec_write_vram;
use crate::timer::Timer;
use crate::timer::spec_timer_read;
use crate::timer::spec_timer_tick;
use crate::timer::spec_timer_write;

verus! {

/// 8 KiB of internal work RAM and 127 bytes of high RAM.
pub const INTERNAL_RAM_SIZE: usize = 8192;

pub const HIGH_RAM_SIZE: usize = 127;

/// The address router: owns the bank controller, internal and high RAM,
/// the pixel pipeline's register/VRAM/OAM surface, the timer, the joypad
/// status byte and the two interrupt registers. It resolves every 16-bit
/// address to exactly one backing store; addresses outside every defined
/// sub-range are a hard failure.
pub struct MMU {
    pub mbc: MBC0,
    pub ram: Vec<u8>,
    pub hram: Vec<u8>,
    pub ppu: PPU,
    pub timer: Timer,
    pub joypad: Joypad,
    pub interrupt_enable: u8,
    pub interrupt_flag: u8,
}

/// The mathematical model of the router and everything it owns.
#[verifier::ext_equal]
pub ghost struct MmuView {
    pub rom: Seq<u8>,
    pub ram: Seq<u8>,
    pub hram: Seq<u8>,
    pub ppu: PpuView,
    pub timer: Timer,
    pub joypad: Joypad,
    pub ie: u8,
    pub iflag: u8,
}

impl View for MMU {
    type V = MmuView;

    open spec fn view(&self) -> MmuView {
        MmuView {
            rom: self.mbc.rom@,
            ram: self.ram@,
            hram: self.hram@,
            ppu: self.ppu@,
            timer: self.timer,
            joypad: self.joypad,
            ie: self.interrupt_enable,
            iflag: self.interrupt_flag,
        }
    }
}

impl MmuView {
    pub open spec fn wf(self) -> bool {
        &&& self.ram.len() == INTERNAL_RAM_SIZE
        &&& self.hram.len() == HIGH_RAM_SIZE
        &&& self.ppu.wf()
    }
}

/// The byte read at an address, resolved through the dispatch table in
/// address order: cartridge ROM, gated VRAM, external cartridge RAM,
/// internal RAM, its echo, gated OAM, the I/O register block, high RAM and
/// the interrupt-enable register. Addresses outside every sub-range are a
/// hard failure.
pub open spec fn spec_mmu_read(m: MmuView, addr: u16) -> Result<u8, EmuError> {
    if addr < 0x8000 {
        spec_mbc0_read_rom(m.rom, addr)
    } else if addr < 0xA000 {
        Ok(spec_read_vram(m.ppu, addr))
    } else if addr < 0xC000 {
        Ok(0)
    } else if addr < 0xE000 {
        Ok(m.ram[addr - 0xC000])
    } else if addr < 0xFE00 {
        Ok(m.ram[addr - 0xE000])
    } else if addr < 0xFEA0 {
        Ok(spec_read_oam(m.ppu, addr))
    } else if addr < 0xFF00 {
        Err(EmuError::UnimplementedRegion(addr))
    } else if addr == 0xFF00 {
        Ok(m.joypad.p1)
    } else if addr <= 0xFF02 {
        Err(EmuError::UnimplementedRegion(addr))
    } else if 0xFF04 <= addr && addr <= 0xFF07 {
        Ok(spec_timer_read(m.timer, addr))
    } else if addr == 0xFF0F {
        Ok(m.iflag)
    } else if 0xFF10 <= addr && addr <= 0xFF3F {
        Ok(0)
    } else if 0xFF40 <= addr && addr <= 0xFF4B {
        spec_read_reg(m.ppu, addr)
    } else if addr < 0xFF80 {
        Err(EmuError::UnmappedAddress(addr))
    } else if addr < 0xFFFF {
        Ok(m.hram[addr - 0xFF80])
    } else {
        Ok(m.ie)
    }
}

/// The router after a write, through the same dispatch table. ROM and
/// external-RAM writes go to the bank controller (which ignores them on a
/// no-banking cartridge); sound-stub writes are dropped.
pub open spec fn spec_mmu_write(m: MmuView, addr: u16, val: u8) -> Result<MmuView, EmuError> {
    if addr < 0x8000 {
        Ok(m)
    } else if addr < 0xA000 {
        Ok(MmuView { ppu: spec_write_vram(m.ppu, addr, val), ..m })
    } else if addr < 0xC000 {
        Ok(m)
    } else if addr < 0xE000 {
        Ok(MmuView { ram: m.ram.update(addr - 0xC000, val), ..m })
    } else if addr < 0xFE00 {
        Ok(MmuView { ram: m.ram.update(addr - 0xE000, val), ..m })
    } else if addr < 0xFEA0 {
        Ok(MmuView { ppu: spec_write_oam(m.ppu, addr, val), ..m })
    } else if addr < 0xFF00 {
        Err(EmuError::UnimplementedRegion(addr))
    } else if addr == 0xFF00 {
        Ok(MmuView { joypad: (Joypad { p1: val & 0xF8 }), ..m })
    } else if addr <= 0xFF02 {
        Err(EmuError::UnimplementedRegion(addr))
    } else if 0xFF04 <= addr && addr <= 0xFF07 {
        Ok(MmuView { timer: spec_timer_write(m.timer, addr, val), ..m })
    } else if addr == 0xFF0F {
        Ok(MmuView { iflag: val, ..m })
    } else if 0xFF10 <= addr && addr <= 0xFF3F {
        Ok(m)
    } else if 0xFF40 <= addr && addr <= 0xFF4B {
        match spec_write_reg(m.ppu, addr, val) {
            Ok(p) => Ok(MmuView { ppu: p, ..m }),
            Err(e) => Err(e),
        }
    } else if addr < 0xFF80 {
        Err(EmuError::UnmappedAddress(addr))
    } else if addr < 0xFFFF {
        Ok(MmuView { hram: m.hram.update(addr - 0xFF80, val), ..m })
    } else {
        Ok(MmuView { ie: val, ..m })
    }
}

/// A 16-bit little-endian read built from two 8-bit reads: low byte at the
/// address, high byte at the address above it (wrapping), read first.
pub open spec fn spec_mmu_read_wide(m: MmuView, addr: u16) -> Result<u16, EmuError> {
    match spec_mmu_read(m, ((addr + 1) % 0x10000) as u16) {
        Err(e) => Err(e),
        Ok(hi) => match spec_mmu_read(m, addr) {
            Err(e) => Err(e),
            Ok(lo) => Ok((hi * 256 + lo) as u16),
        },
    }
}

/// A 16-bit little-endian write built from two 8-bit writes: low byte at
/// the address first, high byte at the address above it (wrapping).
pub open spec fn spec_mmu_write_wide(m: MmuView, addr: u16, val: u16) -> Result<MmuView, EmuError> {
    match spec_mmu_write(m, addr, (val % 256) as u8) {
        Err(e) => Err(e),
        Ok(m1) => spec_mmu_write(m1, ((addr + 1) % 0x10000) as u16, (val / 256) as u8),
    }
}

/// The router state a failed wide write leaves behind: unchanged when the
/// low byte's write failed, else with only the low byte written.
pub open spec fn spec_mmu_write_wide_partial(m: MmuView, addr: u16, val: u16) -> MmuView {
    match spec_mmu_write(m, addr, (val % 256) as u8) {
        Err(_) => m,
        Ok(m1) => m1,
    }
}

/// One cycle of everything the router paces: the timer advances (a counter
/// overflow raises bit 2 of the interrupt-flag register) and the pixel
/// pipeline advances. The boolean reports a framebuffer flush.
pub open spec fn spec_mmu_tick(m: MmuView) -> (MmuView, bool) {
    let t = spec_timer_tick(m.timer);
    let iflag = if t.1 {
        m.iflag | 0x04
    } else {
        m.iflag
    };
    let p = spec_ppu_tick(m.ppu);
    (MmuView { timer: t.0, iflag, ppu: p.0, ..m }, p.1)
}

/// Both bytes of a wide access land in a plainly memory-backed store that
/// returns what was stored: internal RAM or its echo, high RAM, VRAM while
/// the pipeline leaves it accessible, or OAM while accessible. I/O
/// registers rewrite or gate what is written and ROM drops writes, so they
/// are no such store.
pub open spec fn spec_ram_backed_pair(m: MmuView, addr: u16) -> bool {
    ||| (0xC000 <= addr && addr + 1 <= 0xFDFF)
    ||| (0xFF80 <= addr && addr + 1 <= 0xFFFE)
    ||| (0x8000 <= addr && addr + 1 <= 0x9FFF && crate::ppu::spec_vram_accessible(m.ppu))
    ||| (0xFE00 <= addr && addr + 1 <= 0xFE9F && crate::ppu::spec_oam_accessible(m.ppu))
}

/// A 16-bit write followed by a 16-bit read at the same address returns
/// the value written, wherever both bytes land in a memory-backed store.
pub proof fn lemma_write_wide_read_wide_roundtrip(m: MmuView, addr: u16, val: u16)
    requires
        m.wf(),
        spec_ram_backed_pair(m, addr),
    ensures
        match spec_mmu_write_wide(m, addr, val) {
            Ok(m1) => spec_mmu_read_wide(m1, addr) == Ok::<u16, EmuError>(val),
            Err(_) => false,
        },
{
    let lo = (val % 256) as u8;
    let hi = (val / 256) as u8;
    let a1 = ((addr + 1) % 0x10000) as u16;
    match spec_mmu_write(m, addr, lo) {
        Ok(m1) => {
            match spec_mmu_write(m1, a1, hi) {
                Ok(m2) => {
                    assert(spec_mmu_read(m2, a1) == Ok::<u8, EmuError>(hi));
                    assert(spec_mmu_read(m2, addr) == Ok::<u8, EmuError>(lo));
                    assert(hi * 256 + lo == val) by (nonlinear_arith)
                        requires
                            lo == val % 256,
                            hi == val / 256,
                    {
                    }
                },
                Err(_) => {
                    assert(false);
                },
            }
        },
        Err(_) => {
            assert(false);
        },
    }
}

impl MMU {
    /// The reset state of the router over a given ROM image: RAM cleared,
    /// every component in its reset state.
    pub open spec fn new_spec_view(rom: Seq<u8>) -> MmuView {
        MmuView {
            rom,
            ram: Seq::new(INTERNAL_RAM_SIZE as nat, |i: int| 0u8),
            hram: Seq::new(HIGH_RAM_SIZE as nat, |i: int| 0u8),
            ppu: PPU::new_spec_view(),
            timer: (Timer { div: 0u8, tima: 0u8, tma: 0u8, tac: 0u8, cycles: 0u64 }),
            joypad: (Joypad { p1: 0u8 }),
            ie: 0u8,
            iflag: 0u8,
        }
    }

    /// A router over a freshly built bank controller.
    pub fn new(mbc: MBC0) -> (r: MMU)
        ensures
            r@ == MMU::new_spec_view(mbc.rom@),
            r@.wf(),
    {
        let r = MMU {
            mbc,
            ram: vec![0u8; INTERNAL_RAM_SIZE],
            hram: vec![0u8; HIGH_RAM_SIZE],
            ppu: PPU::new(),
            timer: Timer::new(),
            joypad: Joypad::new(),
            interrupt_enable: 0,
            interrupt_flag: 0,
        };
        proof {
            assert(r@.ram =~= Seq::new(INTERNAL_RAM_SIZE as nat, |i: int| 0u8));
            assert(r@.hram =~= Seq::new(HIGH_RAM_SIZE as nat, |i: int| 0u8));
        }
        r
    }

    pub fn read(&self, addr: u16) -> (r: Result<u8, EmuError>)
        requires
            self@.wf(),
        ensures
            r == spec_mmu_read(self@, addr),
    {
        if addr < 0x8000 {
            self.mbc.rom_read(addr)
        } else if addr < 0xA000 {
            Ok(self.ppu.read_vram(addr))
        } else if addr < 0xC000 {
            Ok(self.mbc.ram_read(addr))
        } else if addr < 0xE000 {
            Ok(self.ram[(addr - 0xC000) as usize])
        } else if addr < 0xFE00 {
            Ok(self.ram[(addr - 0xE000) as usize])
        } else if addr < 0xFEA0 {
            Ok(self.ppu.read_oam(addr))
        } else if addr < 0xFF00 {
            Err(EmuError::UnimplementedRegion(addr))
        } else if addr == 0xFF00 {
            Ok(self.joypad.read())
        } else if addr <= 0xFF02 {
            Err(EmuError::UnimplementedRegion(addr))
        } else if 0xFF04 <= addr && addr <= 0xFF07 {
            Ok(self.timer.read(addr))
        } else if addr == 0xFF0F {
            Ok(self.interrupt_flag)
        } else if 0xFF10 <= addr && addr <= 0xFF3F {
            // sound is out of scope: the stub reads as zero
            Ok(0)
        } else if 0xFF40 <= addr && addr <= 0xFF4B {
            self.ppu.read_reg(addr)
        } else if addr < 0xFF80 {
            Err(EmuError::UnmappedAddress(addr))
        } else if addr < 0xFFFF {
            Ok(self.hram[(addr - 0xFF80) as usize])
        } else {
            Ok(self.interrupt_enable)
        }
    }

    pub fn write(&mut self, addr: u16, value: u8) -> (r: Result<(), EmuError>)
        requires
            old(self)@.wf(),
        ensures
            match r {
                Ok(()) => spec_mmu_write(old(self)@, addr, value) == Ok::<MmuView, EmuError>(
                    final(self)@,
                ),
                Err(e) => {
                    &&& spec_mmu_write(old(self)@, addr, value) == Err::<MmuView, EmuError>(e)
                    &&& final(self)@ == old(self)@
                },
            },
            final(self)@.wf(),
    {
        if addr < 0x8000 {
            self.mbc.rom_write(addr, value);
            Ok(())
        } else if addr < 0xA000 {
            self.ppu.write_vram(addr, value);
            Ok(())
        } else if addr < 0xC000 {
            self.mbc.ram_write(addr, value);
            Ok(())
        } else if addr < 0xE000 {
            self.ram.set((addr - 0xC000) as usize, value);
            Ok(())
        } else if addr < 0xFE00 {
            self.ram.set((addr - 0xE000) as usize, value);
            Ok(())
        } else if addr < 0xFEA0 {
            self.ppu.write_oam(addr, value);
            Ok(())
        } else if addr < 0xFF00 {
            Err(EmuError::UnimplementedRegion(addr))
        } else if addr == 0xFF00 {
            self.joypad.write(value);
            Ok(())
        } else if addr <= 0xFF02 {
            Err(EmuError::UnimplementedRegion(addr))
        } else if 0xFF04 <= addr && addr <= 0xFF07 {
            self.timer.write(addr, value);
            Ok(())
        } else if addr == 0xFF0F {
            self.interrupt_flag = value;
            Ok(())
        } else if 0xFF10 <= addr && addr <= 0xFF3F {
            // sound is out of scope: the stub drops writes
            Ok(())
        } else if 0xFF40 <= addr && addr <= 0xFF4B {
            match self.ppu.write_reg(addr, value) {
                Ok(()) => Ok(()),
                Err(e) => Err(e),
            }
        } else if addr < 0xFF80 {
            Err(EmuError::UnmappedAddress(addr))
        } else if addr < 0xFFFF {
            self.hram.set((addr - 0xFF80) as usize, value);
            Ok(())
        } else {
            self.interrupt_enable = value;
            Ok(())
        }
    }

    pub fn read_wide(&self, addr: u16) -> (r: Result<u16, EmuError>)
        requires
            self@.wf(),
        ensures
            r == spec_mmu_read_wide(self@, addr),
    {
        let next: u16 = if addr == 0xFFFF {
            0
        } else {
            addr + 1
        };
        let hi = match self.read(next) {
            Ok(v) => v,
            Err(e) => {
                return Err(e);
            },
        };
        let lo = match self.read(addr) {
            Ok(v) => v,
            Err(e) => {
                return Err(e);
            },
        };
        Ok((hi as u16) * 256 + (lo as u16))
    }

    pub fn write_wide(&mut self, addr: u16, value: u16) -> (r: Result<(), EmuError>)
        requires
            old(self)@.wf(),
        ensures
            match r {
                Ok(()) => spec_mmu_write_wide(old(self)@, addr, value) == Ok::<
                    MmuView,
                    EmuError,
                >(final(self)@),
                Err(e) => {
                    &&& spec_mmu_write_wide(old(self)@, addr, value) == Err::<
                        MmuView,
                        EmuError,
                    >(e)
                    &&& final(self)@ == spec_mmu_write_wide_partial(old(self)@, addr, value)
                },
            },
            final(self)@.wf(),
    {
        match self.write(addr, (value % 256) as u8) {
            Ok(()) => (),
            Err(e) => {
                return Err(e);
            },
        }
        let next: u16 = if addr == 0xFFFF {
            0
        } else {
            addr + 1
        };
        self.write(next, (value / 256) as u8)
    }

    /// One cycle of the timer and the pixel pipeline; a timer overflow
    /// raises its interrupt-request bit. Returns whether a finished frame
    /// was flushed.
    pub fn do_cycle(&mut self) -> (flush: bool)
        requires
            old(self)@.wf(),
        ensures
            final(self)@ == spec_mmu_tick(old(self)@).0,
            flush == spec_mmu_tick(old(self)@).1,
            final(self)@.wf(),
    {
        let overflow = self.timer.do_cycles();
        if overflow {
            self.interrupt_flag = self.interrupt_flag | 0x04;
        }
        self.ppu.do_cycle()
    }
}

} // verus!
