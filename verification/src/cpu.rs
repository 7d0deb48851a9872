use vstd::prelude::*;
use crate::errors::EmuError;
use crate::mbc::load_cartridge;
use crate::mbc::spec_load_cartridge;
use crate::mmu::MMU;
use crate::mmu::MmuView;
use crate::mmu::spec_mmu_read;
use crate::mmu::spec_mmu_read_wide;
use crate::mmu::spec_mmu_tick;
use crate::mmu::spec_mmu_write;
use crate::mmu::spec_mmu_write_wide;
use crate::mmu::spec_mmu_write_wide_partial;
use crate::registers::CpuFlag;
use crate::registers::Registers;
use crate::registers::flags_byte;
use crate::registers::lemma_flags_byte_reads;

verus! {

/// The CPU: the register file, the address router it drives, the running
/// cycle counter, the per-instruction remaining-cycle counter that gates
/// fetching, and the interrupt-master-enable flag.
pub struct CPU {
    pub registers: Registers,
    pub mmu: MMU,
    pub total_cycles: u64,
    pub cycles_remaining: u8,
    pub ime: bool,
}

/// The mathematical model of the whole machine.
#[verifier::ext_equal]
pub ghost struct CpuView {
    pub regs: Registers,
    pub mmu: MmuView,
    pub total_cycles: u64,
    pub cycles_remaining: u8,
    pub ime: bool,
}

impl View for CPU {
    type V = CpuView;

    open spec fn view(&self) -> CpuView {
        CpuView {
            regs: self.registers,
            mmu: self.mmu@,
            total_cycles: self.total_cycles,
            cycles_remaining: self.cycles_remaining,
            ime: self.ime,
        }
    }
}

impl CpuView {
    pub open spec fn wf(self) -> bool {
        &&& self.regs.wf()
        &&& self.mmu.wf()
    }
}

/// Truncation to 16 bits with wraparound; the argument may be negative.
pub open spec fn spec_wrap16(v: int) -> u16 {
    (v % 0x10000) as u16
}

/// Whether the carry flag is set in a flag byte, as the 0-or-1 carry-in.
pub open spec fn spec_carry_in(f: u8) -> int {
    if f & 0x10u8 != 0 {
        1
    } else {
        0
    }
}

/// 8-bit addition: the truncated sum; Zero iff the result is zero,
/// Subtract clear, Half-carry iff a carry leaves bit 3, Carry iff the sum
/// overflows past bit 7.
pub open spec fn spec_add_res(a: u8, b: u8) -> u8 {
    ((a + b) % 256) as u8
}

pub open spec fn spec_add_flags(a: u8, b: u8) -> u8 {
    flags_byte((a + b) % 256 == 0, false, a % 16 + b % 16 > 15, a + b > 255)
}

/// 8-bit add-with-carry: textbook semantics, the carry-in participating in
/// the sum, the half-carry and the carry-out.
pub open spec fn spec_adc_res(a: u8, b: u8, cin: int) -> u8 {
    ((a + b + cin) % 256) as u8
}

pub open spec fn spec_adc_flags(a: u8, b: u8, cin: int) -> u8 {
    flags_byte((a + b + cin) % 256 == 0, false, a % 16 + b % 16 + cin > 15, a + b + cin > 255)
}

/// 8-bit subtraction: Zero iff the result is zero, Subtract set,
/// Half-carry iff bit 4 is borrowed from, Carry iff the subtrahend is the
/// larger.
pub open spec fn spec_sub_res(a: u8, b: u8) -> u8 {
    ((a - b) % 256) as u8
}

pub open spec fn spec_sub_flags(a: u8, b: u8) -> u8 {
    flags_byte((a - b) % 256 == 0, true, a % 16 < b % 16, (a as int) < b)
}

/// 8-bit subtract-with-borrow: textbook semantics.
pub open spec fn spec_sbc_res(a: u8, b: u8, cin: int) -> u8 {
    ((a - b - cin) % 256) as u8
}

pub open spec fn spec_sbc_flags(a: u8, b: u8, cin: int) -> u8 {
    flags_byte((a - b - cin) % 256 == 0, true, a % 16 < b % 16 + cin, (a as int) < b + cin)
}

/// Logical AND sets Half-carry unconditionally and clears Carry.
pub open spec fn spec_and_flags(a: u8, b: u8) -> u8 {
    flags_byte((a & b) == 0, false, true, false)
}

/// OR and XOR clear Half-carry and Carry.
pub open spec fn spec_or_flags(a: u8, b: u8) -> u8 {
    flags_byte((a | b) == 0, false, false, false)
}

pub open spec fn spec_xor_flags(a: u8, b: u8) -> u8 {
    flags_byte((a ^ b) == 0, false, false, false)
}

/// Increment wraps and leaves Carry unaffected; Half-carry iff the low
/// nibble was 15.
pub open spec fn spec_inc_res(n: u8) -> u8 {
    ((n + 1) % 256) as u8
}

pub open spec fn spec_inc_flags(n: u8, f: u8) -> u8 {
    flags_byte((n + 1) % 256 == 0, false, n % 16 == 15, f & 0x10u8 != 0)
}

/// Decrement wraps and leaves Carry unaffected; Half-carry iff the low
/// nibble was 0.
pub open spec fn spec_dec_res(n: u8) -> u8 {
    ((n - 1) % 256) as u8
}

pub open spec fn spec_dec_flags(n: u8, f: u8) -> u8 {
    flags_byte((n - 1) % 256 == 0, true, n % 16 == 0, f & 0x10u8 != 0)
}

/// Rotate left through carry: the old carry becomes bit 0, the old bit 7
/// becomes the carry.
pub open spec fn spec_rl_res(n: u8, cin: int) -> u8 {
    ((n % 128) * 2 + cin) as u8
}

pub open spec fn spec_rl_flags(n: u8, cin: int) -> u8 {
    flags_byte((n % 128) * 2 + cin == 0, false, false, n >= 128)
}

/// 16-bit addition: the truncated sum; Half-carry iff a carry leaves bit
/// 11, Carry iff the sum overflows past bit 15.
pub open spec fn spec_add16_res(a: u16, b: u16) -> u16 {
    ((a + b) % 0x10000) as u16
}

pub open spec fn spec_add16_flags(a: u16, b: u16) -> u8 {
    flags_byte(
        (a + b) % 0x10000 == 0,
        false,
        a % 0x1000 + b % 0x1000 > 0xFFF,
        a + b > 0xFFFF,
    )
}

impl CPU {
    /// Builds the machine around a cartridge image: the image is validated
    /// and handed to the bank controller, every component starts in its
    /// reset state, and the program counter sits at the reset address zero.
    pub fn new(cartridge_data: Vec<u8>) -> (r: Result<CPU, EmuError>)
        ensures
            match r {
                Ok(cpu) => {
                    &&& spec_load_cartridge(cartridge_data@) == Ok::<Seq<u8>, EmuError>(
                        cpu@.mmu.rom,
                    )
                    &&& cpu@.regs == Registers::new_spec()
                    &&& cpu@.mmu == MMU::new_spec_view(cpu@.mmu.rom)
                    &&& cpu@.total_cycles == 0
                    &&& cpu@.cycles_remaining == 0
                    &&& cpu@.ime == false
                    &&& cpu@.wf()
                },
                Err(e) => spec_load_cartridge(cartridge_data@) == Err::<Seq<u8>, EmuError>(e),
            },
    {
        let mbc = match load_cartridge(cartridge_data) {
            Ok(m) => m,
            Err(e) => {
                return Err(e);
            },
        };
        Ok(
            CPU {
                registers: Registers::new(),
                mmu: MMU::new(mbc),
                total_cycles: 0,
                cycles_remaining: 0,
                ime: false,
            },
        )
    }

    /// A new instruction is fetched only once the previous instruction's
    /// cycles have elapsed.
    pub fn should_load_next_instr(&self) -> (r: bool)
        ensures
            r == (self.cycles_remaining == 0),
    {
        self.cycles_remaining == 0
    }

    /// The opcode byte under the program counter.
    pub fn fetch_next_opcode(&self) -> (r: Result<u8, EmuError>)
        requires
            self@.wf(),
        ensures
            r == spec_mmu_read(self@.mmu, self.registers.pc),
    {
        self.mmu.read(self.registers.pc)
    }

    /// Reads the byte under the program counter and advances past it.
    fn fetch_imm8(&mut self) -> (r: Result<u8, EmuError>)
        requires
            old(self)@.wf(),
        ensures
            final(self)@.wf(),
            match r {
                Ok(b) => spec_fetch_imm8(old(self)@) == Ok::<(CpuView, u8), (CpuView, EmuError)>(
                    (final(self)@, b),
                ),
                Err(e) => spec_fetch_imm8(old(self)@) == Err::<(CpuView, u8), (CpuView, EmuError)>((final(self)@, e)),
            },
    {
        let byte = match self.mmu.read(self.registers.pc) {
            Ok(b) => b,
            Err(e) => {
                return Err(e);
            },
        };
        self.registers.pc = if self.registers.pc == 0xFFFF {
            0
        } else {
            self.registers.pc + 1
        };
        Ok(byte)
    }

    /// Reads the 16-bit little-endian word under the program counter and
    /// advances past it.
    fn fetch_imm16(&mut self) -> (r: Result<u16, EmuError>)
        requires
            old(self)@.wf(),
        ensures
            final(self)@.wf(),
            match r {
                Ok(w) => spec_fetch_imm16(old(self)@) == Ok::<(CpuView, u16), (CpuView, EmuError)>(
                    (final(self)@, w),
                ),
                Err(e) => spec_fetch_imm16(old(self)@) == Err::<(CpuView, u16), (CpuView, EmuError)>((final(self)@, e)),
            },
    {
        let word = match self.mmu.read_wide(self.registers.pc) {
            Ok(w) => w,
            Err(e) => {
                return Err(e);
            },
        };
        self.registers.pc = if self.registers.pc >= 0xFFFE {
            (2 - (0xFFFF - self.registers.pc + 1)) as u16
        } else {
            self.registers.pc + 2
        };
        Ok(word)
    }

    /// The target of a relative jump: the program counter plus the signed
    /// 8-bit offset, with 16-bit wraparound.
    pub fn calc_rel_addr(addr: u16, r8: i8) -> (r: u16)
        ensures
            r == spec_wrap16(addr + r8),
    {
        let t: i32 = addr as i32 + r8 as i32;
        let u: i32 = if t < 0 {
            t + 65536
        } else if t >= 65536 {
            t - 65536
        } else {
            t
        };
        u as u16
    }

    /// Pushes a word: the stack pointer moves down by 2 (wrapping) and the
    /// word is stored little-endian at the new pointer.
    fn push_word(&mut self, val: u16) -> (r: Result<(), EmuError>)
        requires
            old(self)@.wf(),
        ensures
            final(self)@.wf(),
            match r {
                Ok(()) => spec_push_word(old(self)@, val) == Ok::<CpuView, (CpuView, EmuError)>(
                    final(self)@,
                ),
                Err(e) => spec_push_word(old(self)@, val) == Err::<CpuView, (CpuView, EmuError)>((final(self)@, e)),
            },
    {
        self.registers.sp = if self.registers.sp >= 2 {
            self.registers.sp - 2
        } else {
            0xFFFE + self.registers.sp
        };
        self.mmu.write_wide(self.registers.sp, val)
    }

    /// Pops a word: read little-endian at the stack pointer, which then
    /// moves up by 2 (wrapping).
    fn pop_word(&mut self) -> (r: Result<u16, EmuError>)
        requires
            old(self)@.wf(),
        ensures
            final(self)@.wf(),
            match r {
                Ok(w) => spec_pop_word(old(self)@) == Ok::<(CpuView, u16), (CpuView, EmuError)>(
                    (final(self)@, w),
                ),
                Err(e) => spec_pop_word(old(self)@) == Err::<(CpuView, u16), (CpuView, EmuError)>((final(self)@, e)),
            },
    {
        let val = match self.mmu.read_wide(self.registers.sp) {
            Ok(w) => w,
            Err(e) => {
                return Err(e);
            },
        };
        self.registers.sp = if self.registers.sp >= 0xFFFE {
            (2 - (0xFFFF - self.registers.sp + 1)) as u16
        } else {
            self.registers.sp + 2
        };
        Ok(val)
    }

    /// 16-bit addition with the flag semantics of the paired-register add.
    pub fn alu16_add(&mut self, a: u16, b: u16) -> (res: u16)
        requires
            old(self)@.wf(),
        ensures
            res == spec_add16_res(a, b),
            final(self)@ == (CpuView {
                regs: (Registers { f: spec_add16_flags(a, b), ..old(self)@.regs }),
                ..old(self)@
            }),
            final(self)@.wf(),
    {
        let sum: u32 = a as u32 + b as u32;
        let res: u16 = (sum % 0x10000) as u16;
        let h = (a % 0x1000) + (b % 0x1000) > 0xFFF;
        let c = sum > 0xFFFF;
        self.registers.set_flags(res == 0, false, h, c);
        res
    }

    pub fn alu8_add(&mut self, a: u8, b: u8) -> (res: u8)
        requires
            old(self)@.wf(),
        ensures
            res == spec_add_res(a, b),
            final(self)@ == (CpuView {
                regs: (Registers { f: spec_add_flags(a, b), ..old(self)@.regs }),
                ..old(self)@
            }),
            final(self)@.wf(),
    {
        let sum: u16 = a as u16 + b as u16;
        let res: u8 = (sum % 256) as u8;
        let h = (a % 16) + (b % 16) > 15;
        let c = sum > 255;
        self.registers.set_flags(res == 0, false, h, c);
        res
    }

    /// Add with carry: the carry flag participates in the sum and in both
    /// carry computations.
    pub fn alu8_adc(&mut self, a: u8, b: u8) -> (res: u8)
        requires
            old(self)@.wf(),
        ensures
            res == spec_adc_res(a, b, spec_carry_in(old(self)@.regs.f)),
            final(self)@ == (CpuView {
                regs: (Registers {
                    f: spec_adc_flags(a, b, spec_carry_in(old(self)@.regs.f)),
                    ..old(self)@.regs
                }),
                ..old(self)@
            }),
            final(self)@.wf(),
    {
        let cin: u8 = if self.registers.get_flag(CpuFlag::C) {
            1
        } else {
            0
        };
        let sum: u16 = a as u16 + b as u16 + cin as u16;
        let res: u8 = (sum % 256) as u8;
        let h = (a % 16) + (b % 16) + cin > 15;
        let c = sum > 255;
        self.registers.set_flags(res == 0, false, h, c);
        res
    }

    pub fn alu8_sub(&mut self, a: u8, b: u8) -> (res: u8)
        requires
            old(self)@.wf(),
        ensures
            res == spec_sub_res(a, b),
            final(self)@ == (CpuView {
                regs: (Registers { f: spec_sub_flags(a, b), ..old(self)@.regs }),
                ..old(self)@
            }),
            final(self)@.wf(),
    {
        let res: u8 = if a >= b {
            a - b
        } else {
            (256u16 - ((b - a) as u16)) as u8
        };
        let h = (a % 16) < (b % 16);
        let c = a < b;
        self.registers.set_flags(res == 0, true, h, c);
        res
    }

    /// Subtract with borrow: the carry flag joins the subtrahend and both
    /// borrow computations.
    pub fn alu8_sub_with_borrow(&mut self, a: u8, b: u8) -> (res: u8)
        requires
            old(self)@.wf(),
        ensures
            res == spec_sbc_res(a, b, spec_carry_in(old(self)@.regs.f)),
            final(self)@ == (CpuView {
                regs: (Registers {
                    f: spec_sbc_flags(a, b, spec_carry_in(old(self)@.regs.f)),
                    ..old(self)@.regs
                }),
                ..old(self)@
            }),
            final(self)@.wf(),
    {
        let cin: u8 = if self.registers.get_flag(CpuFlag::C) {
            1
        } else {
            0
        };
        let t: u16 = b as u16 + cin as u16;
        let res: u8 = if a as u16 >= t {
            a - (t as u8)
        } else {
            (256u16 - (t - a as u16)) as u8
        };
        let lhs: u16 = (a % 16) as u16;
        let rhs: u16 = (b % 16) as u16 + cin as u16;
        let h = lhs < rhs;
        let c = (a as u16) < t;
        self.registers.set_flags(res == 0, true, h, c);
        res
    }

    /// A second name of the subtract-with-borrow routine, kept alongside it.
    pub fn alu8_sdc(&mut self, a: u8, b: u8) -> (res: u8)
        requires
            old(self)@.wf(),
        ensures
            res == spec_sbc_res(a, b, spec_carry_in(old(self)@.regs.f)),
            final(self)@ == (CpuView {
                regs: (Registers {
                    f: spec_sbc_flags(a, b, spec_carry_in(old(self)@.regs.f)),
                    ..old(self)@.regs
                }),
                ..old(self)@
            }),
            final(self)@.wf(),
    {
        self.alu8_sub_with_borrow(a, b)
    }

    pub fn alu8_and(&mut self, a: u8, b: u8) -> (res: u8)
        requires
            old(self)@.wf(),
        ensures
            res == a & b,
            final(self)@ == (CpuView {
                regs: (Registers { f: spec_and_flags(a, b), ..old(self)@.regs }),
                ..old(self)@
            }),
            final(self)@.wf(),
    {
        let res = a & b;
        self.registers.set_flags(res == 0, false, true, false);
        res
    }

    pub fn alu8_or(&mut self, a: u8, b: u8) -> (res: u8)
        requires
            old(self)@.wf(),
        ensures
            res == a | b,
            final(self)@ == (CpuView {
                regs: (Registers { f: spec_or_flags(a, b), ..old(self)@.regs }),
                ..old(self)@
            }),
            final(self)@.wf(),
    {
        let res = a | b;
        self.registers.set_flags(res == 0, false, false, false);
        res
    }

    pub fn alu8_xor(&mut self, a: u8, b: u8) -> (res: u8)
        requires
            old(self)@.wf(),
        ensures
            res == a ^ b,
            final(self)@ == (CpuView {
                regs: (Registers { f: spec_xor_flags(a, b), ..old(self)@.regs }),
                ..old(self)@
            }),
            final(self)@.wf(),
    {
        let res = a ^ b;
        self.registers.set_flags(res == 0, false, false, false);
        res
    }

    /// Compare: the subtraction's flags with the numeric result discarded.
    pub fn alu8_cp(&mut self, a: u8, b: u8)
        requires
            old(self)@.wf(),
        ensures
            final(self)@ == (CpuView {
                regs: (Registers { f: spec_sub_flags(a, b), ..old(self)@.regs }),
                ..old(self)@
            }),
            final(self)@.wf(),
    {
        let res: u8 = if a >= b {
            a - b
        } else {
            (256u16 - ((b - a) as u16)) as u8
        };
        let h = (a % 16) < (b % 16);
        let c = a < b;
        self.registers.set_flags(res == 0, true, h, c);
    }

    /// Increment: wraps, sets Zero/Subtract/Half-carry, leaves Carry alone.
    pub fn alu8_inc(&mut self, n: u8) -> (res: u8)
        requires
            old(self)@.wf(),
        ensures
            res == spec_inc_res(n),
            final(self)@ == (CpuView {
                regs: (Registers {
                    f: spec_inc_flags(n, old(self)@.regs.f),
                    ..old(self)@.regs
                }),
                ..old(self)@
            }),
            final(self)@.wf(),
    {
        let cflag = self.registers.get_flag(CpuFlag::C);
        let res: u8 = if n == 255 {
            0
        } else {
            n + 1
        };
        self.registers.set_flags(res == 0, false, n % 16 == 15, cflag);
        res
    }

    /// Decrement: wraps, sets Zero/Subtract/Half-carry, leaves Carry alone.
    pub fn alu8_dec(&mut self, n: u8) -> (res: u8)
        requires
            old(self)@.wf(),
        ensures
            res == spec_dec_res(n),
            final(self)@ == (CpuView {
                regs: (Registers {
                    f: spec_dec_flags(n, old(self)@.regs.f),
                    ..old(self)@.regs
                }),
                ..old(self)@
            }),
            final(self)@.wf(),
    {
        let cflag = self.registers.get_flag(CpuFlag::C);
        let res: u8 = if n == 0 {
            255
        } else {
            n - 1
        };
        self.registers.set_flags(res == 0, true, n % 16 == 0, cflag);
        res
    }

    /// Restart: pushes the program counter and jumps to the fixed vector.
    fn rst(&mut self, n: u8) -> (r: Result<(), EmuError>)
        requires
            old(self)@.wf(),
        ensures
            final(self)@.wf(),
            match r {
                Ok(()) => spec_rst(old(self)@, n) == Ok::<CpuView, (CpuView, EmuError)>(final(self)@),
                Err(e) => spec_rst(old(self)@, n) == Err::<CpuView, (CpuView, EmuError)>((final(self)@, e)),
            },
    {
        let pc = self.registers.pc;
        match self.push_word(pc) {
            Ok(()) => {},
            Err(e) => {
                return Err(e);
            },
        }
        self.registers.pc = n as u16;
        Ok(())
    }

    fn bit_mask(n: u8) -> (r: u8)
        requires
            n < 8,
        ensures
            r == spec_bit_mask(n),
    {
        if n == 0 {
            1
        } else if n == 1 {
            2
        } else if n == 2 {
            4
        } else if n == 3 {
            8
        } else if n == 4 {
            16
        } else if n == 5 {
            32
        } else if n == 6 {
            64
        } else {
            128
        }
    }

    /// Tests one bit of a byte: the result of the test is the bit itself,
    /// so Zero is set exactly when the bit is zero; Subtract clears,
    /// Half-carry sets, Carry and the byte are untouched.
    pub fn test_bit(&mut self, byte: u8, n: u8)
        requires
            old(self)@.wf(),
            n < 8,
        ensures
            final(self)@ == (CpuView {
                regs: (Registers {
                    f: flags_byte(
                        byte & spec_bit_mask(n) == 0,
                        false,
                        true,
                        old(self)@.regs.f & 0x10u8 != 0,
                    ),
                    ..old(self)@.regs
                }),
                ..old(self)@
            }),
            final(self)@.wf(),
    {
        let cflag = self.registers.get_flag(CpuFlag::C);
        let mask = Self::bit_mask(n);
        self.registers.set_flags(byte & mask == 0, false, true, cflag);
    }

    /// The byte with bit `n` set.
    pub fn set_bit(byte: u8, n: u8) -> (r: u8)
        requires
            n < 8,
        ensures
            r == byte | spec_bit_mask(n),
    {
        byte | Self::bit_mask(n)
    }

    /// Rotate left through carry.
    pub fn alu8_rl(&mut self, n: u8) -> (res: u8)
        requires
            old(self)@.wf(),
        ensures
            res == spec_rl_res(n, spec_carry_in(old(self)@.regs.f)),
            final(self)@ == (CpuView {
                regs: (Registers {
                    f: spec_rl_flags(n, spec_carry_in(old(self)@.regs.f)),
                    ..old(self)@.regs
                }),
                ..old(self)@
            }),
            final(self)@.wf(),
    {
        let cin: u8 = if self.registers.get_flag(CpuFlag::C) {
            1
        } else {
            0
        };
        let new_carry = n >= 128;
        let res: u8 = (n % 128) * 2 + cin;
        self.registers.set_flags(res == 0, false, false, new_carry);
        res
    }

    /// One CB-prefixed instruction, dispatched on the second opcode byte;
    /// returns its cycle cost. An opcode without a handler is a fatal
    /// error.
    pub fn execute_cb_instr(&mut self, instr: u8) -> (r: Result<u8, EmuError>)
        requires
            old(self)@.wf(),
        ensures
            final(self)@.wf(),
            match r {
                Ok(cycles) => spec_execute_cb(old(self)@, instr) == Ok::<(CpuView, u8), (CpuView, EmuError)>((final(self)@, cycles)),
                Err(e) => spec_execute_cb(old(self)@, instr) == Err::<(CpuView, u8), (CpuView, EmuError)>((final(self)@, e)),
            },
    {
        if instr == 0x11 {
            // RL C
            let v = self.alu8_rl(self.registers.c);
            self.registers.c = v;
            Ok(8)
        } else if instr == 0x37 {
            // SWAP A
            let low_nibble = self.registers.a % 16;
            self.registers.a = self.registers.a / 16 + low_nibble * 16;
            let z = self.registers.a == 0;
            self.registers.set_flags(z, false, false, false);
            Ok(8)
        } else if instr == 0x47 {
            // BIT 0, A
            self.test_bit(self.registers.a, 0);
            Ok(8)
        } else if instr == 0x5F {
            // BIT 3, A
            self.test_bit(self.registers.a, 3);
            Ok(8)
        } else if instr == 0x7C {
            // BIT 7, H
            self.test_bit(self.registers.h, 7);
            Ok(8)
        } else if instr == 0xC8 {
            // SET 1, B
            self.registers.b = CPU::set_bit(self.registers.b, 1);
            Ok(8)
        } else {
            Err(EmuError::UnknownCbOpcode(instr))
        }
    }

    /// One instruction whose opcode byte has already been fetched and
    /// stepped past: dispatches to the handler, which may fetch immediate
    /// operands and touch memory, and returns the instruction's cycle
    /// cost. On any failure the error of `spec_execute` is returned.
    pub fn execute_instruction(&mut self, opcode: u8) -> (r: Result<u8, EmuError>)
        requires
            old(self)@.wf(),
        ensures
            final(self)@.wf(),
            match r {
                Ok(cycles) => spec_execute(old(self)@, opcode) == Ok::<(CpuView, u8), (CpuView, EmuError)>((final(self)@, cycles)),
                Err(e) => spec_execute(old(self)@, opcode) == Err::<(CpuView, u8), (CpuView, EmuError)>((final(self)@, e)),
            },
    {
        if opcode < 0x10 {
            self.execute_00_0f(opcode)
        } else if opcode < 0x18 {
            self.execute_10_17(opcode)
        } else if opcode < 0x20 {
            self.execute_18_1f(opcode)
        } else if opcode < 0x28 {
            self.execute_20_27(opcode)
        } else if opcode < 0x30 {
            self.execute_28_2f(opcode)
        } else if opcode < 0x40 {
            self.execute_30_3f(opcode)
        } else if opcode < 0x80 {
            self.execute_40_7f(opcode)
        } else if opcode < 0xC0 {
            self.execute_80_bf(opcode)
        } else {
            self.execute_c0_ff(opcode)
        }
    }

    #[verifier::rlimit(100)]
    fn execute_00_0f(&mut self, opcode: u8) -> (r: Result<u8, EmuError>)
        requires
            old(self)@.wf(),
        ensures
            final(self)@.wf(),
            match r {
                Ok(cycles) => spec_execute_00_0f(old(self)@, opcode) == Ok::<(CpuView, u8), (CpuView, EmuError)>((final(self)@, cycles)),
                Err(e) => spec_execute_00_0f(old(self)@, opcode) == Err::<(CpuView, u8), (CpuView, EmuError)>((final(self)@, e)),
            },
    {
        proof {
            reveal(spec_execute_00_0f);
        }
        if opcode == 0x00 {
            // NOP
            Ok(4)
        } else if opcode == 0x01 {
            // LD BC, d16
            let d16 = match self.fetch_imm16() {
                Ok(v) => v,
                Err(e) => {
                    return Err(e);
                },
            };
            self.registers.set_bc(d16);
            Ok(12)
        } else if opcode == 0x02 {
            // LD (BC), A
            let addr = self.registers.get_bc();
            match self.mmu.write(addr, self.registers.a) {
                Ok(()) => {},
                Err(e) => {
                    return Err(e);
                },
            }
            Ok(8)
        } else if opcode == 0x04 {
            // INC B
            let v = self.alu8_inc(self.registers.b);
            self.registers.b = v;
            Ok(4)
        } else if opcode == 0x05 {
            // DEC B
            let v = self.alu8_dec(self.registers.b);
            self.registers.b = v;
            Ok(4)
        } else if opcode == 0x06 {
            // LD B, d8
            let d8 = match self.fetch_imm8() {
                Ok(v) => v,
                Err(e) => {
                    return Err(e);
                },
            };
            self.registers.b = d8;
            Ok(8)
        } else if opcode == 0x0B {
            // DEC BC
            let bc = self.registers.get_bc();
            let v: u16 = if bc == 0 {
                0xFFFF
            } else {
                bc - 1
            };
            self.registers.set_bc(v);
            Ok(8)
        } else if opcode == 0x0C {
            // INC C
            let v = self.alu8_inc(self.registers.c);
            self.registers.c = v;
            Ok(4)
        } else if opcode == 0x0D {
            // DEC C
            let v = self.alu8_dec(self.registers.c);
            self.registers.c = v;
            Ok(4)
        } else if opcode == 0x0E {
            // LD C, d8
            let d8 = match self.fetch_imm8() {
                Ok(v) => v,
                Err(e) => {
                    return Err(e);
                },
            };
            self.registers.c = d8;
            Ok(8)
        } else {
            Err(EmuError::UnknownOpcode(opcode))
        }
    }

    #[verifier::rlimit(100)]
    fn execute_10_17(&mut self, opcode: u8) -> (r: Result<u8, EmuError>)
        requires
            old(self)@.wf(),
        ensures
            final(self)@.wf(),
            match r {
                Ok(cycles) => spec_execute_10_17(old(self)@, opcode) == Ok::<(CpuView, u8), (CpuView, EmuError)>((final(self)@, cycles)),
                Err(e) => spec_execute_10_17(old(self)@, opcode) == Err::<(CpuView, u8), (CpuView, EmuError)>((final(self)@, e)),
            },
    {
        proof {
            reveal(spec_execute_10_17);
        }
        if opcode == 0x11 {
            // LD DE, d16
            let d16 = match self.fetch_imm16() {
                Ok(v) => v,
                Err(e) => {
                    return Err(e);
                },
            };
            self.registers.set_de(d16);
            Ok(12)
        } else if opcode == 0x13 {
            // INC DE
            let de = self.registers.get_de();
            let v: u16 = if de == 0xFFFF {
                0
            } else {
                de + 1
            };
            self.registers.set_de(v);
            Ok(8)
        } else if opcode == 0x14 {
            // INC D
            let v = self.alu8_inc(self.registers.d);
            self.registers.d = v;
            Ok(4)
        } else if opcode == 0x15 {
            // DEC D
            let v = self.alu8_dec(self.registers.d);
            self.registers.d = v;
            Ok(4)
        } else if opcode == 0x16 {
            // LD D, d8
            let d8 = match self.fetch_imm8() {
                Ok(v) => v,
                Err(e) => {
                    return Err(e);
                },
            };
            self.registers.d = d8;
            Ok(8)
        } else if opcode == 0x17 {
            // RLA
            let v = self.alu8_rl(self.registers.a);
            self.registers.a = v;
            Ok(4)
        } else {
            Err(EmuError::UnknownOpcode(opcode))
        }
    }

    #[verifier::rlimit(100)]
    fn execute_18_1f(&mut self, opcode: u8) -> (r: Result<u8, EmuError>)
        requires
            old(self)@.wf(),
        ensures
            final(self)@.wf(),
            match r {
                Ok(cycles) => spec_execute_18_1f(old(self)@, opcode) == Ok::<(CpuView, u8), (CpuView, EmuError)>((final(self)@, cycles)),
                Err(e) => spec_execute_18_1f(old(self)@, opcode) == Err::<(CpuView, u8), (CpuView, EmuError)>((final(self)@, e)),
            },
    {
        proof {
            reveal(spec_execute_18_1f);
        }
        if opcode == 0x18 {
            // JR r8
            let b = match self.fetch_imm8() {
                Ok(v) => v,
                Err(e) => {
                    return Err(e);
                },
            };
            let r8 = CPU::to_signed8(b);
            self.registers.pc = CPU::calc_rel_addr(self.registers.pc, r8);
            Ok(12)
        } else if opcode == 0x19 {
            // ADD HL, DE
            let res = self.alu16_add(self.registers.get_hl(), self.registers.get_de());
            self.registers.set_hl(res);
            Ok(8)
        } else if opcode == 0x1A {
            // LD A, (DE)
            let addr = self.registers.get_de();
            let val = match self.mmu.read(addr) {
                Ok(v) => v,
                Err(e) => {
                    return Err(e);
                },
            };
            self.registers.a = val;
            Ok(8)
        } else if opcode == 0x1C {
            // INC E
            let v = self.alu8_inc(self.registers.e);
            self.registers.e = v;
            Ok(4)
        } else if opcode == 0x1D {
            // DEC E
            let v = self.alu8_dec(self.registers.e);
            self.registers.e = v;
            Ok(4)
        } else if opcode == 0x1E {
            // LD E, d8
            let d8 = match self.fetch_imm8() {
                Ok(v) => v,
                Err(e) => {
                    return Err(e);
                },
            };
            self.registers.e = d8;
            Ok(8)
        } else if opcode == 0x1F {
            // RRA
            let carry = self.registers.a % 2 == 1;
            self.registers.a = self.registers.a / 2;
            let z = self.registers.a == 0;
            self.registers.set_flags(z, false, false, carry);
            Ok(4)
        } else {
            Err(EmuError::UnknownOpcode(opcode))
        }
    }

    #[verifier::rlimit(100)]
    fn execute_20_27(&mut self, opcode: u8) -> (r: Result<u8, EmuError>)
        requires
            old(self)@.wf(),
        ensures
            final(self)@.wf(),
            match r {
                Ok(cycles) => spec_execute_20_27(old(self)@, opcode) == Ok::<(CpuView, u8), (CpuView, EmuError)>((final(self)@, cycles)),
                Err(e) => spec_execute_20_27(old(self)@, opcode) == Err::<(CpuView, u8), (CpuView, EmuError)>((final(self)@, e)),
            },
    {
        proof {
            reveal(spec_execute_20_27);
        }
        if opcode == 0x20 {
            // JR NZ, r8
            let b = match self.fetch_imm8() {
                Ok(v) => v,
                Err(e) => {
                    return Err(e);
                },
            };
            if !self.registers.get_flag(CpuFlag::Z) {
                let r8 = CPU::to_signed8(b);
                self.registers.pc = CPU::calc_rel_addr(self.registers.pc, r8);
                Ok(12)
            } else {
                Ok(8)
            }
        } else if opcode == 0x21 {
            // LD HL, d16
            let d16 = match self.fetch_imm16() {
                Ok(v) => v,
                Err(e) => {
                    return Err(e);
                },
            };
            self.registers.set_hl(d16);
            Ok(12)
        } else if opcode == 0x22 {
            // LD (HL+), A
            let hl = self.registers.get_hl();
            match self.mmu.write(hl, self.registers.a) {
                Ok(()) => {},
                Err(e) => {
                    return Err(e);
                },
            }
            let v: u16 = if hl == 0xFFFF {
                0
            } else {
                hl + 1
            };
            self.registers.set_hl(v);
            Ok(8)
        } else if opcode == 0x23 {
            // INC HL
            let hl = self.registers.get_hl();
            let v: u16 = if hl == 0xFFFF {
                0
            } else {
                hl + 1
            };
            self.registers.set_hl(v);
            Ok(8)
        } else if opcode == 0x24 {
            // INC H
            let v = self.alu8_inc(self.registers.h);
            self.registers.h = v;
            Ok(4)
        } else if opcode == 0x25 {
            // DEC H
            let v = self.alu8_dec(self.registers.h);
            self.registers.h = v;
            Ok(4)
        } else {
            Err(EmuError::UnknownOpcode(opcode))
        }
    }

    #[verifier::rlimit(100)]
    fn execute_28_2f(&mut self, opcode: u8) -> (r: Result<u8, EmuError>)
        requires
            old(self)@.wf(),
        ensures
            final(self)@.wf(),
            match r {
                Ok(cycles) => spec_execute_28_2f(old(self)@, opcode) == Ok::<(CpuView, u8), (CpuView, EmuError)>((final(self)@, cycles)),
                Err(e) => spec_execute_28_2f(old(self)@, opcode) == Err::<(CpuView, u8), (CpuView, EmuError)>((final(self)@, e)),
            },
    {
        proof {
            reveal(spec_execute_28_2f);
        }
        if opcode == 0x28 {
            // JR Z, r8
            let b = match self.fetch_imm8() {
                Ok(v) => v,
                Err(e) => {
                    return Err(e);
                },
            };
            if self.registers.get_flag(CpuFlag::Z) {
                let r8 = CPU::to_signed8(b);
                self.registers.pc = CPU::calc_rel_addr(self.registers.pc, r8);
                Ok(12)
            } else {
                Ok(8)
            }
        } else if opcode == 0x2A {
            // LD A, (HL+)
            let hl = self.registers.get_hl();
            let val = match self.mmu.read(hl) {
                Ok(v) => v,
                Err(e) => {
                    return Err(e);
                },
            };
            self.registers.a = val;
            let v: u16 = if hl == 0xFFFF {
                0
            } else {
                hl + 1
            };
            self.registers.set_hl(v);
            Ok(8)
        } else if opcode == 0x2C {
            // INC L
            let v = self.alu8_inc(self.registers.l);
            self.registers.l = v;
            Ok(4)
        } else if opcode == 0x2D {
            // DEC L
            let v = self.alu8_dec(self.registers.l);
            self.registers.l = v;
            Ok(4)
        } else if opcode == 0x2E {
            // LD L, d8
            let d8 = match self.fetch_imm8() {
                Ok(v) => v,
                Err(e) => {
                    return Err(e);
                },
            };
            self.registers.l = d8;
            Ok(8)
        } else if opcode == 0x2F {
            // CPL
            self.registers.a = 255 - self.registers.a;
            self.registers.set_flag(CpuFlag::N, true);
            self.registers.set_flag(CpuFlag::H, true);
            Ok(4)
        } else {
            Err(EmuError::UnknownOpcode(opcode))
        }
    }

    #[verifier::rlimit(100)]
    fn execute_30_3f(&mut self, opcode: u8) -> (r: Result<u8, EmuError>)
        requires
            old(self)@.wf(),
        ensures
            final(self)@.wf(),
            match r {
                Ok(cycles) => spec_execute_30_3f(old(self)@, opcode) == Ok::<(CpuView, u8), (CpuView, EmuError)>((final(self)@, cycles)),
                Err(e) => spec_execute_30_3f(old(self)@, opcode) == Err::<(CpuView, u8), (CpuView, EmuError)>((final(self)@, e)),
            },
    {
        proof {
            reveal(spec_execute_30_3f);
        }
        if opcode == 0x31 {
            // LD SP, d16
            let d16 = match self.fetch_imm16() {
                Ok(v) => v,
                Err(e) => {
                    return Err(e);
                },
            };
            self.registers.sp = d16;
            Ok(12)
        } else if opcode == 0x32 {
            // LD (HL-), A
            let hl = self.registers.get_hl();
            match self.mmu.write(hl, self.registers.a) {
                Ok(()) => {},
                Err(e) => {
                    return Err(e);
                },
            }
            let v: u16 = if hl == 0 {
                0xFFFF
            } else {
                hl - 1
            };
            self.registers.set_hl(v);
            Ok(8)
        } else if opcode == 0x36 {
            // LD (HL), d8
            let d8 = match self.fetch_imm8() {
                Ok(v) => v,
                Err(e) => {
                    return Err(e);
                },
            };
            let hl = self.registers.get_hl();
            match self.mmu.write(hl, d8) {
                Ok(()) => {},
                Err(e) => {
                    return Err(e);
                },
            }
            Ok(12)
        } else if opcode == 0x3C {
            // INC A
            let v = self.alu8_inc(self.registers.a);
            self.registers.a = v;
            Ok(4)
        } else if opcode == 0x3D {
            // DEC A
            let v = self.alu8_dec(self.registers.a);
            self.registers.a = v;
            Ok(4)
        } else if opcode == 0x3E {
            // LD A, d8
            let d8 = match self.fetch_imm8() {
                Ok(v) => v,
                Err(e) => {
                    return Err(e);
                },
            };
            self.registers.a = d8;
            Ok(8)
        } else {
            Err(EmuError::UnknownOpcode(opcode))
        }
    }

    #[verifier::rlimit(100)]
    fn execute_40_7f(&mut self, opcode: u8) -> (r: Result<u8, EmuError>)
        requires
            old(self)@.wf(),
        ensures
            final(self)@.wf(),
            match r {
                Ok(cycles) => spec_execute_40_7f(old(self)@, opcode) == Ok::<(CpuView, u8), (CpuView, EmuError)>((final(self)@, cycles)),
                Err(e) => spec_execute_40_7f(old(self)@, opcode) == Err::<(CpuView, u8), (CpuView, EmuError)>((final(self)@, e)),
            },
    {
        proof {
            reveal(spec_execute_40_7f);
        }
        if opcode == 0x47 {
            // LD B, A
            self.registers.b = self.registers.a;
            Ok(4)
        } else if opcode == 0x4F {
            // LD C, A
            self.registers.c = self.registers.a;
            Ok(4)
        } else if opcode == 0x56 {
            // LD D, (HL)
            let addr = self.registers.get_hl();
            let val = match self.mmu.read(addr) {
                Ok(v) => v,
                Err(e) => {
                    return Err(e);
                },
            };
            self.registers.d = val;
            Ok(8)
        } else if opcode == 0x57 {
            // LD D, A
            self.registers.d = self.registers.a;
            Ok(4)
        } else if opcode == 0x5E {
            // LD E, H
            self.registers.e = self.registers.h;
            Ok(4)
        } else if opcode == 0x5F {
            // LD E, A
            self.registers.e = self.registers.a;
            Ok(4)
        } else if opcode == 0x67 {
            // LD H, A
            self.registers.h = self.registers.a;
            Ok(4)
        } else if opcode == 0x77 {
            // LD (HL), A
            let addr = self.registers.get_hl();
            match self.mmu.write(addr, self.registers.a) {
                Ok(()) => {},
                Err(e) => {
                    return Err(e);
                },
            }
            Ok(8)
        } else if opcode == 0x78 {
            // LD A, B
            self.registers.a = self.registers.b;
            Ok(4)
        } else if opcode == 0x79 {
            // LD A, C
            self.registers.a = self.registers.c;
            Ok(4)
        } else if opcode == 0x7B {
            // LD A, E
            self.registers.a = self.registers.e;
            Ok(4)
        } else if opcode == 0x7C {
            // LD A, H
            self.registers.a = self.registers.h;
            Ok(4)
        } else if opcode == 0x7D {
            // LD A, L
            self.registers.a = self.registers.l;
            Ok(4)
        } else {
            Err(EmuError::UnknownOpcode(opcode))
        }
    }

    #[verifier::rlimit(100)]
    fn execute_80_bf(&mut self, opcode: u8) -> (r: Result<u8, EmuError>)
        requires
            old(self)@.wf(),
        ensures
            final(self)@.wf(),
            match r {
                Ok(cycles) => spec_execute_80_bf(old(self)@, opcode) == Ok::<(CpuView, u8), (CpuView, EmuError)>((final(self)@, cycles)),
                Err(e) => spec_execute_80_bf(old(self)@, opcode) == Err::<(CpuView, u8), (CpuView, EmuError)>((final(self)@, e)),
            },
    {
        proof {
            reveal(spec_execute_80_bf);
        }
        if opcode == 0x86 {
            // ADD A, (HL)
            let addr = self.registers.get_hl();
            let val = match self.mmu.read(addr) {
                Ok(v) => v,
                Err(e) => {
                    return Err(e);
                },
            };
            let v = self.alu8_add(self.registers.a, val);
            self.registers.a = v;
            Ok(8)
        } else if opcode == 0x87 {
            // ADD A, A
            let v = self.alu8_add(self.registers.a, self.registers.a);
            self.registers.a = v;
            Ok(8)
        } else if opcode == 0x90 {
            // SUB B
            let v = self.alu8_sub(self.registers.a, self.registers.b);
            self.registers.a = v;
            Ok(4)
        } else if opcode == 0xA1 {
            // AND C
            let v = self.alu8_and(self.registers.a, self.registers.c);
            self.registers.a = v;
            Ok(4)
        } else if opcode == 0xA9 {
            // XOR C
            let v = self.alu8_xor(self.registers.a, self.registers.c);
            self.registers.a = v;
            Ok(4)
        } else if opcode == 0xAF {
            // XOR A
            let v = self.alu8_xor(self.registers.a, self.registers.a);
            self.registers.a = v;
            Ok(4)
        } else if opcode == 0xB0 {
            // OR B
            let v = self.alu8_or(self.registers.a, self.registers.b);
            self.registers.a = v;
            Ok(4)
        } else if opcode == 0xB1 {
            // OR C
            let v = self.alu8_or(self.registers.a, self.registers.c);
            self.registers.a = v;
            Ok(4)
        } else if opcode == 0xB2 {
            // OR D
            let v = self.alu8_or(self.registers.a, self.registers.d);
            self.registers.a = v;
            Ok(4)
        } else if opcode == 0xB3 {
            // OR E
            let v = self.alu8_or(self.registers.a, self.registers.e);
            self.registers.a = v;
            Ok(4)
        } else if opcode == 0xB4 {
            // OR H
            let v = self.alu8_or(self.registers.a, self.registers.h);
            self.registers.a = v;
            Ok(4)
        } else if opcode == 0xB5 {
            // OR L
            let v = self.alu8_or(self.registers.a, self.registers.l);
            self.registers.a = v;
            Ok(4)
        } else if opcode == 0xB6 {
            // OR (HL)
            let addr = self.registers.get_hl();
            let val = match self.mmu.read(addr) {
                Ok(v) => v,
                Err(e) => {
                    return Err(e);
                },
            };
            let v = self.alu8_or(self.registers.a, val);
            self.registers.a = v;
            Ok(4)
        } else if opcode == 0xB7 {
            // OR A
            let v = self.alu8_or(self.registers.a, self.registers.a);
            self.registers.a = v;
            Ok(4)
        } else if opcode == 0xBE {
            // CP (HL)
            let addr = self.registers.get_hl();
            let val = match self.mmu.read(addr) {
                Ok(v) => v,
                Err(e) => {
                    return Err(e);
                },
            };
            self.alu8_cp(self.registers.a, val);
            Ok(8)
        } else if opcode == 0xBF {
            // this table row subtracts an immediate into A
            let n = match self.fetch_imm8() {
                Ok(v) => v,
                Err(e) => {
                    return Err(e);
                },
            };
            let v = self.alu8_sub(self.registers.a, n);
            self.registers.a = v;
            Ok(4)
        } else {
            Err(EmuError::UnknownOpcode(opcode))
        }
    }

    #[verifier::rlimit(100)]
    fn execute_c0_ff(&mut self, opcode: u8) -> (r: Result<u8, EmuError>)
        requires
            old(self)@.wf(),
        ensures
            final(self)@.wf(),
            match r {
                Ok(cycles) => spec_execute_c0_ff(old(self)@, opcode) == Ok::<(CpuView, u8), (CpuView, EmuError)>((final(self)@, cycles)),
                Err(e) => spec_execute_c0_ff(old(self)@, opcode) == Err::<(CpuView, u8), (CpuView, EmuError)>((final(self)@, e)),
            },
    {
        proof {
            reveal(spec_execute_c0_ff);
        }
        if opcode == 0xC1 {
            // POP BC
            let w = match self.pop_word() {
                Ok(v) => v,
                Err(e) => {
                    return Err(e);
                },
            };
            self.registers.set_bc(w);
            Ok(16)
        } else if opcode == 0xC3 {
            // JP a16
            let addr = match self.fetch_imm16() {
                Ok(v) => v,
                Err(e) => {
                    return Err(e);
                },
            };
            self.registers.pc = addr;
            Ok(16)
        } else if opcode == 0xC5 {
            // PUSH BC
            let bc = self.registers.get_bc();
            match self.push_word(bc) {
                Ok(()) => {},
                Err(e) => {
                    return Err(e);
                },
            }
            Ok(16)
        } else if opcode == 0xC9 {
            // RET
            let w = match self.pop_word() {
                Ok(v) => v,
                Err(e) => {
                    return Err(e);
                },
            };
            self.registers.pc = w;
            Ok(8)
        } else if opcode == 0xCB {
            // Prefix CB
            let instr = match self.fetch_imm8() {
                Ok(v) => v,
                Err(e) => {
                    return Err(e);
                },
            };
            self.execute_cb_instr(instr)
        } else if opcode == 0xCD {
            // CALL a16
            let addr = match self.fetch_imm16() {
                Ok(v) => v,
                Err(e) => {
                    return Err(e);
                },
            };
            let pc = self.registers.pc;
            match self.push_word(pc) {
                Ok(()) => {},
                Err(e) => {
                    return Err(e);
                },
            }
            self.registers.pc = addr;
            Ok(24)
        } else if opcode == 0xD5 {
            // PUSH DE
            let de = self.registers.get_de();
            match self.push_word(de) {
                Ok(()) => {},
                Err(e) => {
                    return Err(e);
                },
            }
            Ok(16)
        } else if opcode == 0xE0 {
            // LDH (a8), A
            let d8 = match self.fetch_imm8() {
                Ok(v) => v,
                Err(e) => {
                    return Err(e);
                },
            };
            let addr: u16 = 0xFF00 + d8 as u16;
            match self.mmu.write(addr, self.registers.a) {
                Ok(()) => {},
                Err(e) => {
                    return Err(e);
                },
            }
            Ok(12)
        } else if opcode == 0xE1 {
            // POP HL
            let w = match self.pop_word() {
                Ok(v) => v,
                Err(e) => {
                    return Err(e);
                },
            };
            self.registers.set_hl(w);
            Ok(12)
        } else if opcode == 0xE2 {
            // LD (C), A
            let addr: u16 = 0xFF00 + self.registers.c as u16;
            match self.mmu.write(addr, self.registers.a) {
                Ok(()) => {},
                Err(e) => {
                    return Err(e);
                },
            }
            Ok(8)
        } else if opcode == 0xE6 {
            // AND d8
            let d8 = match self.fetch_imm8() {
                Ok(v) => v,
                Err(e) => {
                    return Err(e);
                },
            };
            let _ = self.alu8_and(self.registers.a, d8);
            Ok(8)
        } else if opcode == 0xE9 {
            // JP (HL)
            let hl = self.registers.get_hl();
            let w = match self.mmu.read_wide(hl) {
                Ok(v) => v,
                Err(e) => {
                    return Err(e);
                },
            };
            self.registers.pc = w;
            Ok(4)
        } else if opcode == 0xEA {
            // LD (a16), A
            let addr = match self.fetch_imm16() {
                Ok(v) => v,
                Err(e) => {
                    return Err(e);
                },
            };
            match self.mmu.write(addr, self.registers.a) {
                Ok(()) => {},
                Err(e) => {
                    return Err(e);
                },
            }
            Ok(16)
        } else if opcode == 0xEF {
            // RST 28h
            match self.rst(0x28) {
                Ok(()) => {},
                Err(e) => {
                    return Err(e);
                },
            }
            Ok(16)
        } else if opcode == 0xF0 {
            // LDH A, (a8)
            let d8 = match self.fetch_imm8() {
                Ok(v) => v,
                Err(e) => {
                    return Err(e);
                },
            };
            let addr: u16 = 0xFF00 + d8 as u16;
            let val = match self.mmu.read(addr) {
                Ok(v) => v,
                Err(e) => {
                    return Err(e);
                },
            };
            self.registers.a = val;
            Ok(12)
        } else if opcode == 0xF3 {
            // DI
            self.ime = false;
            Ok(4)
        } else if opcode == 0xFB {
            // EI
            self.ime = true;
            Ok(4)
        } else if opcode == 0xFE {
            // CP d8
            let d8 = match self.fetch_imm8() {
                Ok(v) => v,
                Err(e) => {
                    return Err(e);
                },
            };
            self.alu8_cp(self.registers.a, d8);
            Ok(8)
        } else {
            Err(EmuError::UnknownOpcode(opcode))
        }
    }

    /// The signed value of an offset byte.
    fn to_signed8(b: u8) -> (r: i8)
        ensures
            r == spec_to_signed8(b),
    {
        if b < 128 {
            b as i8
        } else {
            let m: u8 = 255 - b;
            -(m as i8) - 1
        }
    }

    /// One tick of the whole machine: when the previous instruction's
    /// cycles have elapsed, the opcode under the program counter is
    /// fetched, stepped past, executed and its cycle cost charged;
    /// otherwise the counter just counts down. Either way the timer and
    /// the pixel pipeline then advance by one cycle. Returns whether a
    /// finished frame was flushed.
    pub fn do_cycle(&mut self) -> (r: Result<bool, EmuError>)
        requires
            old(self)@.wf(),
        ensures
            final(self)@.wf(),
            match r {
                Ok(flush) => spec_do_cycle(old(self)@) == Ok::<(CpuView, bool), (CpuView, EmuError)>(
                    (final(self)@, flush),
                ),
                Err(e) => spec_do_cycle(old(self)@) == Err::<(CpuView, bool), (CpuView, EmuError)>((final(self)@, e)),
            },
    {
        if self.should_load_next_instr() {
            let op = match self.fetch_next_opcode() {
                Ok(v) => v,
                Err(e) => {
                    return Err(e);
                },
            };
            self.registers.pc = if self.registers.pc == 0xFFFF {
                0
            } else {
                self.registers.pc + 1
            };
            let cost = match self.execute_instruction(op) {
                Ok(v) => v,
                Err(e) => {
                    return Err(e);
                },
            };
            self.cycles_remaining = cost;
            self.total_cycles = self.total_cycles.wrapping_add(cost as u64);
        } else {
            self.cycles_remaining = self.cycles_remaining - 1;
        }
        Ok(self.mmu.do_cycle())
    }
}

/// Incrementing then decrementing a byte through the ALU returns the
/// original byte; the Half-carry flag afterwards reflects only the
/// decrement (set exactly when the incremented byte's low nibble is zero,
/// whatever the increment's own half-carry was); and the Carry flag is
/// untouched by both operations.
pub proof fn lemma_inc_then_dec_identity(n: u8, f: u8)
    ensures
        spec_dec_res(spec_inc_res(n)) == n,
        (spec_dec_flags(spec_inc_res(n), spec_inc_flags(n, f)) & 0x20u8 != 0) == (spec_inc_res(
            n,
        ) % 16 == 0),
        (spec_dec_flags(spec_inc_res(n), spec_inc_flags(n, f)) & 0x10u8 != 0) == (f & 0x10u8
            != 0),
{
    if n == 255 {
        assert(spec_dec_res(spec_inc_res(n)) == n);
    } else {
        assert(spec_dec_res(spec_inc_res(n)) == n);
    }
    let m = spec_inc_res(n);
    let f1 = spec_inc_flags(n, f);
    lemma_flags_byte_reads((n + 1) % 256 == 0, false, n % 16 == 15, f & 0x10u8 != 0);
    lemma_flags_byte_reads((m - 1) % 256 == 0, true, m % 16 == 0, f1 & 0x10u8 != 0);
}

/// A 64-bit sum with wraparound.
pub open spec fn spec_wrap_add64(x: u64, y: u64) -> u64 {
    if x + y > u64::MAX {
        (x + y - 0x1_0000_0000_0000_0000) as u64
    } else {
        (x + y) as u64
    }
}

/// One tick of the whole machine, as performed by `CPU::do_cycle`: the
/// instruction step (fetch, advance, execute, charge cycles) when due,
/// else a countdown; then one cycle of the router's timer and pixel
/// pipeline. The boolean reports a framebuffer flush.
pub open spec fn spec_do_cycle(c: CpuView) -> Result<(CpuView, bool), (CpuView, EmuError)> {
    let step = if c.cycles_remaining == 0 {
        match spec_mmu_read(c.mmu, c.regs.pc) {
            Err(e) => Err((c, e)),
            Ok(op) => {
                let c1 = CpuView {
                    regs: Registers { pc: spec_wrap16(c.regs.pc + 1), ..c.regs },
                    ..c
                };
                match spec_execute(c1, op) {
                    Err(e) => Err(e),
                    Ok((c2, cost)) => Ok(
                        CpuView {
                            cycles_remaining: cost,
                            total_cycles: spec_wrap_add64(c2.total_cycles, cost as u64),
                            ..c2
                        },
                    ),
                }
            },
        }
    } else {
        Ok(CpuView { cycles_remaining: (c.cycles_remaining - 1) as u8, ..c })
    };
    match step {
        Err(e) => Err(e),
        Ok(c3) => {
            let t = spec_mmu_tick(c3.mmu);
            Ok((CpuView { mmu: t.0, ..c3 }, t.1))
        },
    }
}

/// The register file after a paired 16-bit write.
pub open spec fn regs_set_bc(r: Registers, v: u16) -> Registers {
    Registers { b: (v / 256) as u8, c: (v % 256) as u8, ..r }
}

pub open spec fn regs_set_de(r: Registers, v: u16) -> Registers {
    Registers { d: (v / 256) as u8, e: (v % 256) as u8, ..r }
}

pub open spec fn regs_set_hl(r: Registers, v: u16) -> Registers {
    Registers { h: (v / 256) as u8, l: (v % 256) as u8, ..r }
}

/// The signed value of an offset byte.
pub open spec fn spec_to_signed8(b: u8) -> int {
    if b < 128 {
        b as int
    } else {
        b - 256
    }
}

/// The bit mask of bit `n` of a byte.
pub open spec fn spec_bit_mask(n: u8) -> u8 {
    if n == 0 {
        1
    } else if n == 1 {
        2
    } else if n == 2 {
        4
    } else if n == 3 {
        8
    } else if n == 4 {
        16
    } else if n == 5 {
        32
    } else if n == 6 {
        64
    } else {
        128
    }
}

/// The machine after fetching one immediate byte.
pub open spec fn spec_fetch_imm8(c: CpuView) -> Result<(CpuView, u8), (CpuView, EmuError)> {
    match spec_mmu_read(c.mmu, c.regs.pc) {
        Ok(b) => Ok(
            (
                CpuView {
                    regs: Registers { pc: spec_wrap16(c.regs.pc + 1), ..c.regs },
                    ..c
                },
                b,
            ),
        ),
        Err(e) => Err((c, e)),
    }
}

/// The machine after fetching one immediate word.
pub open spec fn spec_fetch_imm16(c: CpuView) -> Result<(CpuView, u16), (CpuView, EmuError)> {
    match spec_mmu_read_wide(c.mmu, c.regs.pc) {
        Ok(w) => Ok(
            (
                CpuView {
                    regs: Registers { pc: spec_wrap16(c.regs.pc + 2), ..c.regs },
                    ..c
                },
                w,
            ),
        ),
        Err(e) => Err((c, e)),
    }
}

/// The machine after pushing a word onto the stack. A failing store
/// reports the machine as it stands then: stack pointer moved, low byte
/// possibly already written.
pub open spec fn spec_push_word(c: CpuView, val: u16) -> Result<CpuView, (CpuView, EmuError)> {
    let sp1 = spec_wrap16(c.regs.sp - 2);
    match spec_mmu_write_wide(c.mmu, sp1, val) {
        Ok(m) => Ok(CpuView { regs: Registers { sp: sp1, ..c.regs }, mmu: m, ..c }),
        Err(e) => Err(
            (
                CpuView {
                    regs: Registers { sp: sp1, ..c.regs },
                    mmu: spec_mmu_write_wide_partial(c.mmu, sp1, val),
                    ..c
                },
                e,
            ),
        ),
    }
}

/// The machine and the word after popping from the stack.
pub open spec fn spec_pop_word(c: CpuView) -> Result<(CpuView, u16), (CpuView, EmuError)> {
    match spec_mmu_read_wide(c.mmu, c.regs.sp) {
        Ok(w) => Ok(
            (
                CpuView {
                    regs: Registers { sp: spec_wrap16(c.regs.sp + 2), ..c.regs },
                    ..c
                },
                w,
            ),
        ),
        Err(e) => Err((c, e)),
    }
}

/// The machine after a restart: the program counter pushed, then set to the
/// fixed vector.
pub open spec fn spec_rst(c: CpuView, n: u8) -> Result<CpuView, (CpuView, EmuError)> {
    match spec_push_word(c, c.regs.pc) {
        Ok(c1) => Ok(CpuView { regs: Registers { pc: n as u16, ..c1.regs }, ..c1 }),
        Err(e) => Err(e),
    }
}

/// The machine and the cycle cost after one CB-prefixed instruction:
/// rotate/swap/bit-test/bit-set operations. An opcode without a handler is
/// a fatal error.
pub open spec fn spec_execute_cb(c: CpuView, instr: u8) -> Result<(CpuView, u8), (CpuView, EmuError)> {
    if instr == 0x11 {
        // RL C
        let cin = spec_carry_in(c.regs.f);
        Ok(
            (
                CpuView {
                    regs: Registers {
                        c: spec_rl_res(c.regs.c, cin),
                        f: spec_rl_flags(c.regs.c, cin),
                        ..c.regs
                    },
                    ..c
                },
                8,
            ),
        )
    } else if instr == 0x37 {
        // SWAP A
        let a2 = ((c.regs.a % 16) * 16 + c.regs.a / 16) as u8;
        Ok(
            (
                CpuView {
                    regs: Registers {
                        a: a2,
                        f: flags_byte(a2 == 0, false, false, false),
                        ..c.regs
                    },
                    ..c
                },
                8,
            ),
        )
    } else if instr == 0x47 {
        // BIT 0, A
        Ok(
            (
                CpuView {
                    regs: Registers {
                        f: flags_byte(
                            c.regs.a & 1u8 == 0,
                            false,
                            true,
                            c.regs.f & 0x10u8 != 0,
                        ),
                        ..c.regs
                    },
                    ..c
                },
                8,
            ),
        )
    } else if instr == 0x5F {
        // BIT 3, A
        Ok(
            (
                CpuView {
                    regs: Registers {
                        f: flags_byte(
                            c.regs.a & 8u8 == 0,
                            false,
                            true,
                            c.regs.f & 0x10u8 != 0,
                        ),
                        ..c.regs
                    },
                    ..c
                },
                8,
            ),
        )
    } else if instr == 0x7C {
        // BIT 7, H
        Ok(
            (
                CpuView {
                    regs: Registers {
                        f: flags_byte(
                            c.regs.h & 0x80u8 == 0,
                            false,
                            true,
                            c.regs.f & 0x10u8 != 0,
                        ),
                        ..c.regs
                    },
                    ..c
                },
                8,
            ),
        )
    } else if instr == 0xC8 {
        // SET 1, B
        Ok((CpuView { regs: Registers { b: c.regs.b | 2u8, ..c.regs }, ..c }, 8))
    } else {
        Err((c, EmuError::UnknownCbOpcode(instr)))
    }
}

/// The machine and the cycle cost after executing one instruction whose
/// opcode byte has already been fetched and stepped past. Each handler may
/// fetch further immediate bytes, read or write through the router, and
/// update registers and flags; the cycle cost of a conditional jump depends
/// on whether it was taken. An opcode with no handler is a fatal error, as
/// is any router failure the handler runs into.
pub open spec fn spec_execute(c: CpuView, opcode: u8) -> Result<(CpuView, u8), (CpuView, EmuError)> {
    if opcode < 0x10 {
        spec_execute_00_0f(c, opcode)
    } else if opcode < 0x18 {
        spec_execute_10_17(c, opcode)
    } else if opcode < 0x20 {
        spec_execute_18_1f(c, opcode)
    } else if opcode < 0x28 {
        spec_execute_20_27(c, opcode)
    } else if opcode < 0x30 {
        spec_execute_28_2f(c, opcode)
    } else if opcode < 0x40 {
        spec_execute_30_3f(c, opcode)
    } else if opcode < 0x80 {
        spec_execute_40_7f(c, opcode)
    } else if opcode < 0xC0 {
        spec_execute_80_bf(c, opcode)
    } else {
        spec_execute_c0_ff(c, opcode)
    }
}

/// Loads and increments/decrements of the lowest opcode rows.
#[verifier::opaque]
pub open spec fn spec_execute_00_0f(c: CpuView, opcode: u8) -> Result<(CpuView, u8), (CpuView, EmuError)> {
    if opcode == 0x00 {
        // NOP
        Ok((c, 4))
    } else if opcode == 0x01 {
        // LD BC, d16
        match spec_fetch_imm16(c) {
            Ok((c1, w)) => Ok((CpuView { regs: regs_set_bc(c1.regs, w), ..c1 }, 12)),
            Err(e) => Err(e),
        }
    } else if opcode == 0x02 {
        // LD (BC), A
        match spec_mmu_write(c.mmu, c.regs.spec_bc(), c.regs.a) {
            Ok(m) => Ok((CpuView { mmu: m, ..c }, 8)),
            Err(e) => Err((c, e)),
        }
    } else if opcode == 0x04 {
        // INC B
        Ok(
            (
                CpuView {
                    regs: Registers {
                        b: spec_inc_res(c.regs.b),
                        f: spec_inc_flags(c.regs.b, c.regs.f),
                        ..c.regs
                    },
                    ..c
                },
                4,
            ),
        )
    } else if opcode == 0x05 {
        // DEC B
        Ok(
            (
                CpuView {
                    regs: Registers {
                        b: spec_dec_res(c.regs.b),
                        f: spec_dec_flags(c.regs.b, c.regs.f),
                        ..c.regs
                    },
                    ..c
                },
                4,
            ),
        )
    } else if opcode == 0x06 {
        // LD B, d8
        match spec_fetch_imm8(c) {
            Ok((c1, b)) => Ok((CpuView { regs: Registers { b, ..c1.regs }, ..c1 }, 8)),
            Err(e) => Err(e),
        }
    } else if opcode == 0x0B {
        // DEC BC
        Ok(
            (
                CpuView {
                    regs: regs_set_bc(c.regs, spec_wrap16(c.regs.spec_bc() - 1)),
                    ..c
                },
                8,
            ),
        )
    } else if opcode == 0x0C {
        // INC C
        Ok(
            (
                CpuView {
                    regs: Registers {
                        c: spec_inc_res(c.regs.c),
                        f: spec_inc_flags(c.regs.c, c.regs.f),
                        ..c.regs
                    },
                    ..c
                },
                4,
            ),
        )
    } else if opcode == 0x0D {
        // DEC C
        Ok(
            (
                CpuView {
                    regs: Registers {
                        c: spec_dec_res(c.regs.c),
                        f: spec_dec_flags(c.regs.c, c.regs.f),
                        ..c.regs
                    },
                    ..c
                },
                4,
            ),
        )
    } else if opcode == 0x0E {
        // LD C, d8
        match spec_fetch_imm8(c) {
            Ok((c1, b)) => Ok((CpuView { regs: Registers { c: b, ..c1.regs }, ..c1 }, 8)),
            Err(e) => Err(e),
        }
    } else {
        Err((c, EmuError::UnknownOpcode(opcode)))
    }
}

/// Wide loads and the rotate through carry.
#[verifier::opaque]
pub open spec fn spec_execute_10_17(c: CpuView, opcode: u8) -> Result<(CpuView, u8), (CpuView, EmuError)> {
    if opcode == 0x11 {
        // LD DE, d16
        match spec_fetch_imm16(c) {
            Ok((c1, w)) => Ok((CpuView { regs: regs_set_de(c1.regs, w), ..c1 }, 12)),
            Err(e) => Err(e),
        }
    } else if opcode == 0x13 {
        // INC DE
        Ok(
            (
                CpuView {
                    regs: regs_set_de(c.regs, spec_wrap16(c.regs.spec_de() + 1)),
                    ..c
                },
                8,
            ),
        )
    } else if opcode == 0x14 {
        // INC D
        Ok(
            (
                CpuView {
                    regs: Registers {
                        d: spec_inc_res(c.regs.d),
                        f: spec_inc_flags(c.regs.d, c.regs.f),
                        ..c.regs
                    },
                    ..c
                },
                4,
            ),
        )
    } else if opcode == 0x15 {
        // DEC D
        Ok(
            (
                CpuView {
                    regs: Registers {
                        d: spec_dec_res(c.regs.d),
                        f: spec_dec_flags(c.regs.d, c.regs.f),
                        ..c.regs
                    },
                    ..c
                },
                4,
            ),
        )
    } else if opcode == 0x16 {
        // LD D, d8
        match spec_fetch_imm8(c) {
            Ok((c1, b)) => Ok((CpuView { regs: Registers { d: b, ..c1.regs }, ..c1 }, 8)),
            Err(e) => Err(e),
        }
    } else if opcode == 0x17 {
        // RLA
        let cin = spec_carry_in(c.regs.f);
        Ok(
            (
                CpuView {
                    regs: Registers {
                        a: spec_rl_res(c.regs.a, cin),
                        f: spec_rl_flags(c.regs.a, cin),
                        ..c.regs
                    },
                    ..c
                },
                4,
            ),
        )
    } else {
        Err((c, EmuError::UnknownOpcode(opcode)))
    }
}

/// The unconditional relative jump, the wide add and more loads.
#[verifier::opaque]
pub open spec fn spec_execute_18_1f(c: CpuView, opcode: u8) -> Result<(CpuView, u8), (CpuView, EmuError)> {
    if opcode == 0x18 {
        // JR r8
        match spec_fetch_imm8(c) {
            Ok((c1, b)) => Ok(
                (
                    CpuView {
                        regs: Registers {
                            pc: spec_wrap16(c1.regs.pc + spec_to_signed8(b)),
                            ..c1.regs
                        },
                        ..c1
                    },
                    12,
                ),
            ),
            Err(e) => Err(e),
        }
    } else if opcode == 0x19 {
        // ADD HL, DE
        let hl = c.regs.spec_hl();
        let de = c.regs.spec_de();
        Ok(
            (
                CpuView {
                    regs: regs_set_hl(
                        Registers { f: spec_add16_flags(hl, de), ..c.regs },
                        spec_add16_res(hl, de),
                    ),
                    ..c
                },
                8,
            ),
        )
    } else if opcode == 0x1A {
        // LD A, (DE)
        match spec_mmu_read(c.mmu, c.regs.spec_de()) {
            Ok(v) => Ok((CpuView { regs: Registers { a: v, ..c.regs }, ..c }, 8)),
            Err(e) => Err((c, e)),
        }
    } else if opcode == 0x1C {
        // INC E
        Ok(
            (
                CpuView {
                    regs: Registers {
                        e: spec_inc_res(c.regs.e),
                        f: spec_inc_flags(c.regs.e, c.regs.f),
                        ..c.regs
                    },
                    ..c
                },
                4,
            ),
        )
    } else if opcode == 0x1D {
        // DEC E
        Ok(
            (
                CpuView {
                    regs: Registers {
                        e: spec_dec_res(c.regs.e),
                        f: spec_dec_flags(c.regs.e, c.regs.f),
                        ..c.regs
                    },
                    ..c
                },
                4,
            ),
        )
    } else if opcode == 0x1E {
        // LD E, d8
        match spec_fetch_imm8(c) {
            Ok((c1, b)) => Ok((CpuView { regs: Registers { e: b, ..c1.regs }, ..c1 }, 8)),
            Err(e) => Err(e),
        }
    } else if opcode == 0x1F {
        // RRA: a plain shift right, the shifted-out bit entering Carry
        let a2 = (c.regs.a / 2) as u8;
        Ok(
            (
                CpuView {
                    regs: Registers {
                        a: a2,
                        f: flags_byte(a2 == 0, false, false, c.regs.a % 2 == 1),
                        ..c.regs
                    },
                    ..c
                },
                4,
            ),
        )
    } else {
        Err((c, EmuError::UnknownOpcode(opcode)))
    }
}

/// The not-zero conditional jump and ascending-store loads.
#[verifier::opaque]
pub open spec fn spec_execute_20_27(c: CpuView, opcode: u8) -> Result<(CpuView, u8), (CpuView, EmuError)> {
    if opcode == 0x20 {
        // JR NZ, r8
        match spec_fetch_imm8(c) {
            Ok((c1, b)) => if !c1.regs.spec_get_flag(CpuFlag::Z) {
                Ok(
                    (
                        CpuView {
                            regs: Registers {
                                pc: spec_wrap16(c1.regs.pc + spec_to_signed8(b)),
                                ..c1.regs
                            },
                            ..c1
                        },
                        12,
                    ),
                )
            } else {
                Ok((c1, 8))
            },
            Err(e) => Err(e),
        }
    } else if opcode == 0x21 {
        // LD HL, d16
        match spec_fetch_imm16(c) {
            Ok((c1, w)) => Ok((CpuView { regs: regs_set_hl(c1.regs, w), ..c1 }, 12)),
            Err(e) => Err(e),
        }
    } else if opcode == 0x22 {
        // LD (HL+), A
        let hl = c.regs.spec_hl();
        match spec_mmu_write(c.mmu, hl, c.regs.a) {
            Ok(m) => Ok(
                (
                    CpuView {
                        regs: regs_set_hl(c.regs, spec_wrap16(hl + 1)),
                        mmu: m,
                        ..c
                    },
                    8,
                ),
            ),
            Err(e) => Err((c, e)),
        }
    } else if opcode == 0x23 {
        // INC HL
        Ok(
            (
                CpuView {
                    regs: regs_set_hl(c.regs, spec_wrap16(c.regs.spec_hl() + 1)),
                    ..c
                },
                8,
            ),
        )
    } else if opcode == 0x24 {
        // INC H
        Ok(
            (
                CpuView {
                    regs: Registers {
                        h: spec_inc_res(c.regs.h),
                        f: spec_inc_flags(c.regs.h, c.regs.f),
                        ..c.regs
                    },
                    ..c
                },
                4,
            ),
        )
    } else if opcode == 0x25 {
        // DEC H
        Ok(
            (
                CpuView {
                    regs: Registers {
                        h: spec_dec_res(c.regs.h),
                        f: spec_dec_flags(c.regs.h, c.regs.f),
                        ..c.regs
                    },
                    ..c
                },
                4,
            ),
        )
    } else {
        Err((c, EmuError::UnknownOpcode(opcode)))
    }
}

/// The zero conditional jump, ascending loads and the complement
/// instruction.
#[verifier::opaque]
pub open spec fn spec_execute_28_2f(c: CpuView, opcode: u8) -> Result<(CpuView, u8), (CpuView, EmuError)> {
    if opcode == 0x28 {
        // JR Z, r8
        match spec_fetch_imm8(c) {
            Ok((c1, b)) => if c1.regs.spec_get_flag(CpuFlag::Z) {
                Ok(
                    (
                        CpuView {
                            regs: Registers {
                                pc: spec_wrap16(c1.regs.pc + spec_to_signed8(b)),
                                ..c1.regs
                            },
                            ..c1
                        },
                        12,
                    ),
                )
            } else {
                Ok((c1, 8))
            },
            Err(e) => Err(e),
        }
    } else if opcode == 0x2A {
        // LD A, (HL+)
        let hl = c.regs.spec_hl();
        match spec_mmu_read(c.mmu, hl) {
            Ok(v) => Ok(
                (
                    CpuView {
                        regs: regs_set_hl(
                            Registers { a: v, ..c.regs },
                            spec_wrap16(hl + 1),
                        ),
                        ..c
                    },
                    8,
                ),
            ),
            Err(e) => Err((c, e)),
        }
    } else if opcode == 0x2C {
        // INC L
        Ok(
            (
                CpuView {
                    regs: Registers {
                        l: spec_inc_res(c.regs.l),
                        f: spec_inc_flags(c.regs.l, c.regs.f),
                        ..c.regs
                    },
                    ..c
                },
                4,
            ),
        )
    } else if opcode == 0x2D {
        // DEC L
        Ok(
            (
                CpuView {
                    regs: Registers {
                        l: spec_dec_res(c.regs.l),
                        f: spec_dec_flags(c.regs.l, c.regs.f),
                        ..c.regs
                    },
                    ..c
                },
                4,
            ),
        )
    } else if opcode == 0x2E {
        // LD L, d8
        match spec_fetch_imm8(c) {
            Ok((c1, b)) => Ok((CpuView { regs: Registers { l: b, ..c1.regs }, ..c1 }, 8)),
            Err(e) => Err(e),
        }
    } else if opcode == 0x2F {
        // CPL: complement A, setting Subtract and Half-carry only
        Ok(
            (
                CpuView {
                    regs: Registers {
                        a: (255 - c.regs.a) as u8,
                        f: (c.regs.f | 0x40u8) | 0x20u8,
                        ..c.regs
                    },
                    ..c
                },
                4,
            ),
        )
    } else {
        Err((c, EmuError::UnknownOpcode(opcode)))
    }
}

/// Stack-pointer load, the descending-store instruction and accumulator
/// loads.
#[verifier::opaque]
pub open spec fn spec_execute_30_3f(c: CpuView, opcode: u8) -> Result<(CpuView, u8), (CpuView, EmuError)> {
    if opcode == 0x31 {
        // LD SP, d16
        match spec_fetch_imm16(c) {
            Ok((c1, w)) => Ok((CpuView { regs: Registers { sp: w, ..c1.regs }, ..c1 }, 12)),
            Err(e) => Err(e),
        }
    } else if opcode == 0x32 {
        // LD (HL-), A
        let hl = c.regs.spec_hl();
        match spec_mmu_write(c.mmu, hl, c.regs.a) {
            Ok(m) => Ok(
                (
                    CpuView {
                        regs: regs_set_hl(c.regs, spec_wrap16(hl - 1)),
                        mmu: m,
                        ..c
                    },
                    8,
                ),
            ),
            Err(e) => Err((c, e)),
        }
    } else if opcode == 0x36 {
        // LD (HL), d8
        match spec_fetch_imm8(c) {
            Ok((c1, b)) => match spec_mmu_write(c1.mmu, c1.regs.spec_hl(), b) {
                Ok(m) => Ok((CpuView { mmu: m, ..c1 }, 12)),
                Err(e) => Err((c1, e)),
            },
            Err(e) => Err(e),
        }
    } else if opcode == 0x3C {
        // INC A
        Ok(
            (
                CpuView {
                    regs: Registers {
                        a: spec_inc_res(c.regs.a),
                        f: spec_inc_flags(c.regs.a, c.regs.f),
                        ..c.regs
                    },
                    ..c
                },
                4,
            ),
        )
    } else if opcode == 0x3D {
        // DEC A
        Ok(
            (
                CpuView {
                    regs: Registers {
                        a: spec_dec_res(c.regs.a),
                        f: spec_dec_flags(c.regs.a, c.regs.f),
                        ..c.regs
                    },
                    ..c
                },
                4,
            ),
        )
    } else if opcode == 0x3E {
        // LD A, d8
        match spec_fetch_imm8(c) {
            Ok((c1, b)) => Ok((CpuView { regs: Registers { a: b, ..c1.regs }, ..c1 }, 8)),
            Err(e) => Err(e),
        }
    } else {
        Err((c, EmuError::UnknownOpcode(opcode)))
    }
}

/// The register-to-register load block.
#[verifier::opaque]
pub open spec fn spec_execute_40_7f(c: CpuView, opcode: u8) -> Result<(CpuView, u8), (CpuView, EmuError)> {
    if opcode == 0x47 {
        // LD B, A
        Ok((CpuView { regs: Registers { b: c.regs.a, ..c.regs }, ..c }, 4))
    } else if opcode == 0x4F {
        // LD C, A
        Ok((CpuView { regs: Registers { c: c.regs.a, ..c.regs }, ..c }, 4))
    } else if opcode == 0x56 {
        // LD D, (HL)
        match spec_mmu_read(c.mmu, c.regs.spec_hl()) {
            Ok(v) => Ok((CpuView { regs: Registers { d: v, ..c.regs }, ..c }, 8)),
            Err(e) => Err((c, e)),
        }
    } else if opcode == 0x57 {
        // LD D, A
        Ok((CpuView { regs: Registers { d: c.regs.a, ..c.regs }, ..c }, 4))
    } else if opcode == 0x5E {
        // LD E, H
        Ok((CpuView { regs: Registers { e: c.regs.h, ..c.regs }, ..c }, 4))
    } else if opcode == 0x5F {
        // LD E, A
        Ok((CpuView { regs: Registers { e: c.regs.a, ..c.regs }, ..c }, 4))
    } else if opcode == 0x67 {
        // LD H, A
        Ok((CpuView { regs: Registers { h: c.regs.a, ..c.regs }, ..c }, 4))
    } else if opcode == 0x77 {
        // LD (HL), A
        match spec_mmu_write(c.mmu, c.regs.spec_hl(), c.regs.a) {
            Ok(m) => Ok((CpuView { mmu: m, ..c }, 8)),
            Err(e) => Err((c, e)),
        }
    } else if opcode == 0x78 {
        // LD A, B
        Ok((CpuView { regs: Registers { a: c.regs.b, ..c.regs }, ..c }, 4))
    } else if opcode == 0x79 {
        // LD A, C
        Ok((CpuView { regs: Registers { a: c.regs.c, ..c.regs }, ..c }, 4))
    } else if opcode == 0x7B {
        // LD A, E
        Ok((CpuView { regs: Registers { a: c.regs.e, ..c.regs }, ..c }, 4))
    } else if opcode == 0x7C {
        // LD A, H
        Ok((CpuView { regs: Registers { a: c.regs.h, ..c.regs }, ..c }, 4))
    } else if opcode == 0x7D {
        // LD A, L
        Ok((CpuView { regs: Registers { a: c.regs.l, ..c.regs }, ..c }, 4))
    } else {
        Err((c, EmuError::UnknownOpcode(opcode)))
    }
}

/// The arithmetic/logic block: add, subtract, AND/OR/XOR and compare.
#[verifier::opaque]
pub open spec fn spec_execute_80_bf(c: CpuView, opcode: u8) -> Result<(CpuView, u8), (CpuView, EmuError)> {
    if opcode == 0x86 {
        // ADD A, (HL)
        match spec_mmu_read(c.mmu, c.regs.spec_hl()) {
            Ok(v) => Ok(
                (
                    CpuView {
                        regs: Registers {
                            a: spec_add_res(c.regs.a, v),
                            f: spec_add_flags(c.regs.a, v),
                            ..c.regs
                        },
                        ..c
                    },
                    8,
                ),
            ),
            Err(e) => Err((c, e)),
        }
    } else if opcode == 0x87 {
        // ADD A, A
        Ok(
            (
                CpuView {
                    regs: Registers {
                        a: spec_add_res(c.regs.a, c.regs.a),
                        f: spec_add_flags(c.regs.a, c.regs.a),
                        ..c.regs
                    },
                    ..c
                },
                8,
            ),
        )
    } else if opcode == 0x90 {
        // SUB B
        Ok(
            (
                CpuView {
                    regs: Registers {
                        a: spec_sub_res(c.regs.a, c.regs.b),
                        f: spec_sub_flags(c.regs.a, c.regs.b),
                        ..c.regs
                    },
                    ..c
                },
                4,
            ),
        )
    } else if opcode == 0xA1 {
        // AND C
        Ok(
            (
                CpuView {
                    regs: Registers {
                        a: c.regs.a & c.regs.c,
                        f: spec_and_flags(c.regs.a, c.regs.c),
                        ..c.regs
                    },
                    ..c
                },
                4,
            ),
        )
    } else if opcode == 0xA9 {
        // XOR C
        Ok(
            (
                CpuView {
                    regs: Registers {
                        a: c.regs.a ^ c.regs.c,
                        f: spec_xor_flags(c.regs.a, c.regs.c),
                        ..c.regs
                    },
                    ..c
                },
                4,
            ),
        )
    } else if opcode == 0xAF {
        // XOR A
        Ok(
            (
                CpuView {
                    regs: Registers {
                        a: c.regs.a ^ c.regs.a,
                        f: spec_xor_flags(c.regs.a, c.regs.a),
                        ..c.regs
                    },
                    ..c
                },
                4,
            ),
        )
    } else if opcode == 0xB0 {
        // OR B
        Ok(
            (
                CpuView {
                    regs: Registers {
                        a: c.regs.a | c.regs.b,
                        f: spec_or_flags(c.regs.a, c.regs.b),
                        ..c.regs
                    },
                    ..c
                },
                4,
            ),
        )
    } else if opcode == 0xB1 {
        // OR C
        Ok(
            (
                CpuView {
                    regs: Registers {
                        a: c.regs.a | c.regs.c,
                        f: spec_or_flags(c.regs.a, c.regs.c),
                        ..c.regs
                    },
                    ..c
                },
                4,
            ),
        )
    } else if opcode == 0xB2 {
        // OR D
        Ok(
            (
                CpuView {
                    regs: Registers {
                        a: c.regs.a | c.regs.d,
                        f: spec_or_flags(c.regs.a, c.regs.d),
                        ..c.regs
                    },
                    ..c
                },
                4,
            ),
        )
    } else if opcode == 0xB3 {
        // OR E
        Ok(
            (
                CpuView {
                    regs: Registers {
                        a: c.regs.a | c.regs.e,
                        f: spec_or_flags(c.regs.a, c.regs.e),
                        ..c.regs
                    },
                    ..c
                },
                4,
            ),
        )
    } else if opcode == 0xB4 {
        // OR H
        Ok(
            (
                CpuView {
                    regs: Registers {
                        a: c.regs.a | c.regs.h,
                        f: spec_or_flags(c.regs.a, c.regs.h),
                        ..c.regs
                    },
                    ..c
                },
                4,
            ),
        )
    } else if opcode == 0xB5 {
        // OR L
        Ok(
            (
                CpuView {
                    regs: Registers {
                        a: c.regs.a | c.regs.l,
                        f: spec_or_flags(c.regs.a, c.regs.l),
                        ..c.regs
                    },
                    ..c
                },
                4,
            ),
        )
    } else if opcode == 0xB6 {
        // OR (HL)
        match spec_mmu_read(c.mmu, c.regs.spec_hl()) {
            Ok(v) => Ok(
                (
                    CpuView {
                        regs: Registers {
                            a: c.regs.a | v,
                            f: spec_or_flags(c.regs.a, v),
                            ..c.regs
                        },
                        ..c
                    },
                    4,
                ),
            ),
            Err(e) => Err((c, e)),
        }
    } else if opcode == 0xB7 {
        // OR A
        Ok(
            (
                CpuView {
                    regs: Registers {
                        a: c.regs.a | c.regs.a,
                        f: spec_or_flags(c.regs.a, c.regs.a),
                        ..c.regs
                    },
                    ..c
                },
                4,
            ),
        )
    } else if opcode == 0xBE {
        // CP (HL)
        match spec_mmu_read(c.mmu, c.regs.spec_hl()) {
            Ok(v) => Ok(
                (
                    CpuView {
                        regs: Registers { f: spec_sub_flags(c.regs.a, v), ..c.regs },
                        ..c
                    },
                    8,
                ),
            ),
            Err(e) => Err((c, e)),
        }
    } else if opcode == 0xBF {
        // this table row subtracts an immediate into A
        match spec_fetch_imm8(c) {
            Ok((c1, b)) => Ok(
                (
                    CpuView {
                        regs: Registers {
                            a: spec_sub_res(c1.regs.a, b),
                            f: spec_sub_flags(c1.regs.a, b),
                            ..c1.regs
                        },
                        ..c1
                    },
                    4,
                ),
            ),
            Err(e) => Err(e),
        }
    } else {
        Err((c, EmuError::UnknownOpcode(opcode)))
    }
}

/// Stack operations, absolute jumps and calls, the CB prefix, port loads
/// and the interrupt-master-enable instructions.
#[verifier::opaque]
pub open spec fn spec_execute_c0_ff(c: CpuView, opcode: u8) -> Result<(CpuView, u8), (CpuView, EmuError)> {
    if opcode == 0xC1 {
        // POP BC
        match spec_pop_word(c) {
            Ok((c1, w)) => Ok((CpuView { regs: regs_set_bc(c1.regs, w), ..c1 }, 16)),
            Err(e) => Err(e),
        }
    } else if opcode == 0xC3 {
        // JP a16
        match spec_fetch_imm16(c) {
            Ok((c1, w)) => Ok((CpuView { regs: Registers { pc: w, ..c1.regs }, ..c1 }, 16)),
            Err(e) => Err(e),
        }
    } else if opcode == 0xC5 {
        // PUSH BC
        match spec_push_word(c, c.regs.spec_bc()) {
            Ok(c1) => Ok((c1, 16)),
            Err(e) => Err(e),
        }
    } else if opcode == 0xC9 {
        // RET
        match spec_pop_word(c) {
            Ok((c1, w)) => Ok((CpuView { regs: Registers { pc: w, ..c1.regs }, ..c1 }, 8)),
            Err(e) => Err(e),
        }
    } else if opcode == 0xCB {
        // the CB prefix: dispatch into the second opcode table
        match spec_fetch_imm8(c) {
            Ok((c1, instr)) => spec_execute_cb(c1, instr),
            Err(e) => Err(e),
        }
    } else if opcode == 0xCD {
        // CALL a16
        match spec_fetch_imm16(c) {
            Ok((c1, addr)) => match spec_push_word(c1, c1.regs.pc) {
                Ok(c2) => Ok(
                    (CpuView { regs: Registers { pc: addr, ..c2.regs }, ..c2 }, 24),
                ),
                Err(e) => Err(e),
            },
            Err(e) => Err(e),
        }
    } else if opcode == 0xD5 {
        // PUSH DE
        match spec_push_word(c, c.regs.spec_de()) {
            Ok(c1) => Ok((c1, 16)),
            Err(e) => Err(e),
        }
    } else if opcode == 0xE0 {
        // LDH (a8), A
        match spec_fetch_imm8(c) {
            Ok((c1, b)) => match spec_mmu_write(c1.mmu, (0xFF00 + b) as u16, c1.regs.a) {
                Ok(m) => Ok((CpuView { mmu: m, ..c1 }, 12)),
                Err(e) => Err((c1, e)),
            },
            Err(e) => Err(e),
        }
    } else if opcode == 0xE1 {
        // POP HL
        match spec_pop_word(c) {
            Ok((c1, w)) => Ok((CpuView { regs: regs_set_hl(c1.regs, w), ..c1 }, 12)),
            Err(e) => Err(e),
        }
    } else if opcode == 0xE2 {
        // LD (C), A
        match spec_mmu_write(c.mmu, (0xFF00 + c.regs.c) as u16, c.regs.a) {
            Ok(m) => Ok((CpuView { mmu: m, ..c }, 8)),
            Err(e) => Err((c, e)),
        }
    } else if opcode == 0xE6 {
        // AND d8: flags only, the numeric result discarded
        match spec_fetch_imm8(c) {
            Ok((c1, b)) => Ok(
                (
                    CpuView {
                        regs: Registers { f: spec_and_flags(c1.regs.a, b), ..c1.regs },
                        ..c1
                    },
                    8,
                ),
            ),
            Err(e) => Err(e),
        }
    } else if opcode == 0xE9 {
        // JP (HL): jumps to the word stored at HL
        match spec_mmu_read_wide(c.mmu, c.regs.spec_hl()) {
            Ok(w) => Ok((CpuView { regs: Registers { pc: w, ..c.regs }, ..c }, 4)),
            Err(e) => Err((c, e)),
        }
    } else if opcode == 0xEA {
        // LD (a16), A
        match spec_fetch_imm16(c) {
            Ok((c1, addr)) => match spec_mmu_write(c1.mmu, addr, c1.regs.a) {
                Ok(m) => Ok((CpuView { mmu: m, ..c1 }, 16)),
                Err(e) => Err((c1, e)),
            },
            Err(e) => Err(e),
        }
    } else if opcode == 0xEF {
        // RST 28h
        match spec_rst(c, 0x28) {
            Ok(c1) => Ok((c1, 16)),
            Err(e) => Err(e),
        }
    } else if opcode == 0xF0 {
        // LDH A, (a8)
        match spec_fetch_imm8(c) {
            Ok((c1, b)) => match spec_mmu_read(c1.mmu, (0xFF00 + b) as u16) {
                Ok(v) => Ok((CpuView { regs: Registers { a: v, ..c1.regs }, ..c1 }, 12)),
                Err(e) => Err((c1, e)),
            },
            Err(e) => Err(e),
        }
    } else if opcode == 0xF3 {
        // DI
        Ok((CpuView { ime: false, ..c }, 4))
    } else if opcode == 0xFB {
        // EI
        Ok((CpuView { ime: true, ..c }, 4))
    } else if opcode == 0xFE {
        // CP d8
        match spec_fetch_imm8(c) {
            Ok((c1, b)) => Ok(
                (
                    CpuView {
                        regs: Registers { f: spec_sub_flags(c1.regs.a, b), ..c1.regs },
                        ..c1
                    },
                    8,
                ),
            ),
            Err(e) => Err(e),
        }
    } else {
        Err((c, EmuError::UnknownOpcode(opcode)))
    }
}

} // verus!
