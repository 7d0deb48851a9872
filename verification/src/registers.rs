use vstd::prelude::*;

verus! {

/// One of the four meaningful flag bits of the flag register. They occupy the
/// high nibble of `f`: Zero (bit 7), Subtract (bit 6), Half-carry (bit 5),
/// Carry (bit 4). The low nibble of `f` always reads as zero.
#[derive(Clone, Copy, Debug, PartialEq, Eq, Structural)]
pub enum CpuFlag {
    Z,
    N,
    H,
    C,
}

/// The register file: eight 8-bit general registers, the flag byte `f`, a
/// 16-bit stack pointer and a 16-bit program counter. The hardware invariant
/// `wf` (low nibble of `f` is zero) is established by `new` and preserved by
/// every flag-register write.
#[derive(Clone, Copy, Debug, PartialEq, Eq, Structural)]
pub struct Registers {
    pub a: u8,
    pub f: u8,
    pub b: u8,
    pub c: u8,
    pub d: u8,
    pub e: u8,
    pub h: u8,
    pub l: u8,
    pub sp: u16,
    pub pc: u16,
}

/// The bit mask of a flag within the flag byte.
pub open spec fn spec_flag_mask(flag: CpuFlag) -> u8 {
    match flag {
        CpuFlag::Z => 0x80,
        CpuFlag::N => 0x40,
        CpuFlag::H => 0x20,
        CpuFlag::C => 0x10,
    }
}

/// The flag byte assembled from the four flag bits; its low nibble is zero.
pub open spec fn flags_byte(z: bool, n: bool, h: bool, c: bool) -> u8 {
    ((if z { 0x80int } else { 0int }) + (if n { 0x40int } else { 0int })
        + (if h { 0x20int } else { 0int }) + (if c { 0x10int } else { 0int })) as u8
}

/// The flag byte after a single flag-bit write.
pub open spec fn spec_set_flag_byte(f: u8, flag: CpuFlag, set: bool) -> u8 {
    if set {
        f | spec_flag_mask(flag)
    } else {
        f & !spec_flag_mask(flag)
    }
}

proof fn lemma_set_flag_byte_wf(f: u8, m: u8, set: bool)
    by (bit_vector)
    requires
        f % 16 == 0,
        m == 0x80 || m == 0x40 || m == 0x20 || m == 0x10,
    ensures
        (f | m) % 16 == 0,
        (f & !m) % 16 == 0,
        ((f | m) & m) != 0,
        ((f & !m) & m) == 0,
{
}

proof fn lemma_mask_high_nibble(v: u8)
    by (bit_vector)
    ensures
        (v & 0xF0) % 16 == 0,
        v % 16 == 0 ==> (v & 0xF0) == v,
{
}

/// Reading the four flags out of an assembled flag byte gives back the bits
/// it was assembled from, and the byte is well formed.
pub proof fn lemma_flags_byte_reads(z: bool, n: bool, h: bool, c: bool)
    by (bit_vector)
    ensures
        (flags_byte(z, n, h, c) & 0x80u8 != 0) == z,
        (flags_byte(z, n, h, c) & 0x40u8 != 0) == n,
        (flags_byte(z, n, h, c) & 0x20u8 != 0) == h,
        (flags_byte(z, n, h, c) & 0x10u8 != 0) == c,
        flags_byte(z, n, h, c) % 16 == 0,
{
}

impl Registers {
    /// Hardware invariant of the flag register: the low nibble is zero.
    pub open spec fn wf(self) -> bool {
        self.f % 16 == 0
    }

    /// Whether a flag bit is set in the flag byte.
    pub open spec fn spec_get_flag(self, flag: CpuFlag) -> bool {
        self.f & spec_flag_mask(flag) != 0
    }

    /// The packed 16-bit views over register pairs.
    pub open spec fn spec_af(self) -> u16 {
        (self.a * 256 + (self.f & 0xF0)) as u16
    }

    pub open spec fn spec_bc(self) -> u16 {
        (self.b * 256 + self.c) as u16
    }

    pub open spec fn spec_de(self) -> u16 {
        (self.d * 256 + self.e) as u16
    }

    pub open spec fn spec_hl(self) -> u16 {
        (self.h * 256 + self.l) as u16
    }

    /// The reset state: every register zero.
    pub open spec fn new_spec() -> Registers {
        Registers {
            a: 0u8, f: 0u8, b: 0u8, c: 0u8, d: 0u8, e: 0u8, h: 0u8, l: 0u8,
            sp: 0u16, pc: 0u16,
        }
    }

    pub fn new() -> (r: Registers)
        ensures
            r == Registers::new_spec(),
            r.wf(),
    {
        Registers { a: 0, f: 0, b: 0, c: 0, d: 0, e: 0, h: 0, l: 0, sp: 0, pc: 0 }
    }

    pub fn get_af(&self) -> (r: u16)
        ensures
            r == self.spec_af(),
    {
        proof {
            lemma_mask_high_nibble(self.f);
        }
        (self.a as u16) * 256 + ((self.f & 0xF0) as u16)
    }

    pub fn get_bc(&self) -> (r: u16)
        ensures
            r == self.spec_bc(),
    {
        (self.b as u16) * 256 + (self.c as u16)
    }

    pub fn get_de(&self) -> (r: u16)
        ensures
            r == self.spec_de(),
    {
        (self.d as u16) * 256 + (self.e as u16)
    }

    pub fn get_hl(&self) -> (r: u16)
        ensures
            r == self.spec_hl(),
    {
        (self.h as u16) * 256 + (self.l as u16)
    }

    /// Writing the flag byte masks out its low nibble unconditionally.
    pub fn set_f(&mut self, value: u8)
        ensures
            *final(self) == (Registers { f: value & 0xF0, ..*old(self) }),
            final(self).wf(),
    {
        proof {
            lemma_mask_high_nibble(value);
        }
        self.f = value & 0xF0;
    }

    pub fn set_af(&mut self, value: u16)
        ensures
            *final(self) == (Registers {
                a: (value / 256) as u8,
                f: ((value % 256) as u8) & 0xF0,
                ..*old(self)
            }),
            final(self).wf(),
    {
        proof {
            lemma_mask_high_nibble((value % 256) as u8);
        }
        self.a = (value / 256) as u8;
        self.f = ((value % 256) as u8) & 0xF0;
    }

    pub fn set_bc(&mut self, value: u16)
        ensures
            *final(self) == (Registers {
                b: (value / 256) as u8,
                c: (value % 256) as u8,
                ..*old(self)
            }),
    {
        self.b = (value / 256) as u8;
        self.c = (value % 256) as u8;
    }

    pub fn set_de(&mut self, value: u16)
        ensures
            *final(self) == (Registers {
                d: (value / 256) as u8,
                e: (value % 256) as u8,
                ..*old(self)
            }),
    {
        self.d = (value / 256) as u8;
        self.e = (value % 256) as u8;
    }

    pub fn set_hl(&mut self, value: u16)
        ensures
            *final(self) == (Registers {
                h: (value / 256) as u8,
                l: (value % 256) as u8,
                ..*old(self)
            }),
    {
        self.h = (value / 256) as u8;
        self.l = (value % 256) as u8;
    }

    fn flag_mask(flag: CpuFlag) -> (r: u8)
        ensures
            r == spec_flag_mask(flag),
    {
        match flag {
            CpuFlag::Z => 0x80,
            CpuFlag::N => 0x40,
            CpuFlag::H => 0x20,
            CpuFlag::C => 0x10,
        }
    }

    pub fn get_flag(&self, flag: CpuFlag) -> (r: bool)
        ensures
            r == self.spec_get_flag(flag),
    {
        let mask = Self::flag_mask(flag);
        self.f & mask != 0
    }

    /// Replaces all four flags at once from ALU results; the low nibble
    /// stays zero.
    pub fn set_flags(&mut self, z: bool, n: bool, h: bool, c: bool)
        ensures
            *final(self) == (Registers { f: flags_byte(z, n, h, c), ..*old(self) }),
            final(self).wf(),
    {
        let mut fb: u8 = 0;
        if z {
            fb = fb + 0x80;
        }
        if n {
            fb = fb + 0x40;
        }
        if h {
            fb = fb + 0x20;
        }
        if c {
            fb = fb + 0x10;
        }
        proof {
            lemma_mask_high_nibble(fb);
        }
        self.set_f(fb);
    }

    /// Sets or clears one flag bit; the other bits and the low-nibble
    /// invariant are untouched.
    pub fn set_flag(&mut self, flag: CpuFlag, set: bool)
        ensures
            *final(self) == (Registers {
                f: spec_set_flag_byte(old(self).f, flag, set),
                ..*old(self)
            }),
            old(self).wf() ==> final(self).wf(),
            final(self).spec_get_flag(flag) == set,
    {
        proof {
            if old(self).wf() {
                lemma_set_flag_byte_wf(old(self).f, spec_flag_mask(flag), set);
            }
            lemma_set_flag_bit(old(self).f, spec_flag_mask(flag), set);
        }
        let mask = Self::flag_mask(flag);
        if set {
            self.f = self.f | mask;
        } else {
            self.f = self.f & !mask;
        }
    }
}

proof fn lemma_set_flag_bit(f: u8, m: u8, set: bool)
    by (bit_vector)
    requires
        m == 0x80 || m == 0x40 || m == 0x20 || m == 0x10,
    ensures
        set ==> ((f | m) & m) != 0,
        !set ==> ((f & !m) & m) == 0,
{
}

/// The register file after a whole sequence of flag-bit writes, applied in
/// order.
pub open spec fn spec_apply_flag_writes(r: Registers, writes: Seq<(CpuFlag, bool)>) -> Registers
    decreases writes.len(),
{
    if writes.len() == 0 {
        r
    } else {
        let first = Registers { f: spec_set_flag_byte(r.f, writes[0].0, writes[0].1), ..r };
        spec_apply_flag_writes(first, writes.skip(1))
    }
}

/// Flag-register invariant: after any sequence of flag-bit writes to a
/// well-formed file, the low nibble reads back as zero, both from the flag
/// byte itself and from the packed AF view.
pub proof fn lemma_flag_write_sequence_keeps_low_nibble_zero(
    r: Registers,
    writes: Seq<(CpuFlag, bool)>,
)
    requires
        r.wf(),
    ensures
        spec_apply_flag_writes(r, writes).wf(),
        spec_apply_flag_writes(r, writes).f % 16 == 0,
        spec_apply_flag_writes(r, writes).spec_af() % 16 == 0,
    decreases writes.len(),
{
    if writes.len() == 0 {
        lemma_flag_writes_keep_low_nibble_zero(r, CpuFlag::Z, false, 0, 0);
    } else {
        let first = Registers { f: spec_set_flag_byte(r.f, writes[0].0, writes[0].1), ..r };
        lemma_set_flag_byte_wf(r.f, spec_flag_mask(writes[0].0), writes[0].1);
        lemma_flag_write_sequence_keeps_low_nibble_zero(first, writes.skip(1));
    }
}

/// Flag-register invariant: one flag-bit write, a whole-byte write and a
/// packed AF write each leave the flag byte well formed, so by induction any
/// sequence of flag writes does; and a well-formed file reads back a zero low
/// nibble both from `f` and from the packed AF view.
pub proof fn lemma_flag_writes_keep_low_nibble_zero(r: Registers, flag: CpuFlag, set: bool, v8: u8, v16: u16)
    requires
        r.wf(),
    ensures
        (Registers { f: spec_set_flag_byte(r.f, flag, set), ..r }).wf(),
        (Registers { f: v8 & 0xF0, ..r }).wf(),
        (Registers { a: (v16 / 256) as u8, f: ((v16 % 256) as u8) & 0xF0, ..r }).wf(),
        r.spec_af() % 16 == 0,
{
    lemma_set_flag_byte_wf(r.f, spec_flag_mask(flag), set);
    lemma_mask_high_nibble(v8);
    lemma_mask_high_nibble((v16 % 256) as u8);
    lemma_mask_high_nibble(r.f);
    assert(r.spec_af() % 16 == 0) by (nonlinear_arith)
        requires
            r.f % 16 == 0,
            (r.f & 0xF0) == r.f,
            r.spec_af() == (r.a * 256 + (r.f & 0xF0)) as u16,
            r.a * 256 + (r.f & 0xF0) <= 65535,
    {
    }
}

} // verus!
