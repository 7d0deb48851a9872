use vstd::prelude::*;
use crate::mmu::MMU;
use crate::mmu::MmuView;
use crate::mmu::spec_mmu_read;
use crate::mmu::spec_mmu_read_wide;
use crate::registers::Registers;
use crate::text::push_char;
use crate::text::push_str;

verus! {

/// The character of one digit value below 16, upper case.
pub open spec fn spec_digit(n: u8) -> char {
    if n == 0 {
        '0'
    } else if n == 1 {
        '1'
    } else if n == 2 {
        '2'
    } else if n == 3 {
        '3'
    } else if n == 4 {
        '4'
    } else if n == 5 {
        '5'
    } else if n == 6 {
        '6'
    } else if n == 7 {
        '7'
    } else if n == 8 {
        '8'
    } else if n == 9 {
        '9'
    } else if n == 10 {
        'A'
    } else if n == 11 {
        'B'
    } else if n == 12 {
        'C'
    } else if n == 13 {
        'D'
    } else if n == 14 {
        'E'
    } else {
        'F'
    }
}

/// A byte in upper-case hex, two columns wide, space-padded.
pub open spec fn spec_hex2(v: u8) -> Seq<char> {
    if v < 16 {
        seq![' ', spec_digit(v)]
    } else {
        seq![spec_digit(v / 16), spec_digit(v % 16)]
    }
}

/// A word in upper-case hex, four columns wide, space-padded.
pub open spec fn spec_hex4(v: u16) -> Seq<char> {
    if v < 16 {
        seq![' ', ' ', ' ', spec_digit(v as u8)]
    } else if v < 256 {
        seq![' ', ' ', spec_digit((v / 16) as u8), spec_digit((v % 16) as u8)]
    } else if v < 4096 {
        seq![
            ' ',
            spec_digit((v / 256) as u8),
            spec_digit(((v / 16) % 16) as u8),
            spec_digit((v % 16) as u8),
        ]
    } else {
        seq![
            spec_digit((v / 4096) as u8),
            spec_digit(((v / 256) % 16) as u8),
            spec_digit(((v / 16) % 16) as u8),
            spec_digit((v % 16) as u8),
        ]
    }
}

/// A byte in decimal, without padding.
pub open spec fn spec_dec_u8(n: u8) -> Seq<char> {
    if n < 10 {
        seq![spec_digit(n)]
    } else if n < 100 {
        seq![spec_digit(n / 10), spec_digit(n % 10)]
    } else {
        seq![spec_digit(n / 100), spec_digit((n / 10) % 10), spec_digit(n % 10)]
    }
}

/// A signed offset byte in decimal, with a leading minus when negative.
pub open spec fn spec_dec_i8(v: i8) -> Seq<char> {
    if v < 0 {
        seq!['-'] + spec_dec_u8((0 - v) as u8)
    } else {
        spec_dec_u8(v as u8)
    }
}

/// The immediate byte after the opcode, or zero where the router cannot
/// produce it: this trace is observability only.
pub open spec fn spec_byte_arg(m: MmuView, pc: u16) -> u8 {
    match spec_mmu_read(m, ((pc + 1) % 0x10000) as u16) {
        Ok(v) => v,
        Err(_) => 0,
    }
}

/// The immediate word after the opcode, or zero where the router cannot
/// produce it.
pub open spec fn spec_word_arg(m: MmuView, pc: u16) -> u16 {
    match spec_mmu_read_wide(m, ((pc + 1) % 0x10000) as u16) {
        Ok(v) => v,
        Err(_) => 0,
    }
}

/// The signed reading of an offset byte.
pub open spec fn spec_signed_of(b: u8) -> i8 {
    if b < 128 {
        b as i8
    } else {
        (b - 256) as i8
    }
}

fn digit_char(n: u8) -> (c: char)
    requires
        n < 16,
    ensures
        c == spec_digit(n),
{
    if n == 0 {
        '0'
    } else if n == 1 {
        '1'
    } else if n == 2 {
        '2'
    } else if n == 3 {
        '3'
    } else if n == 4 {
        '4'
    } else if n == 5 {
        '5'
    } else if n == 6 {
        '6'
    } else if n == 7 {
        '7'
    } else if n == 8 {
        '8'
    } else if n == 9 {
        '9'
    } else if n == 10 {
        'A'
    } else if n == 11 {
        'B'
    } else if n == 12 {
        'C'
    } else if n == 13 {
        'D'
    } else if n == 14 {
        'E'
    } else {
        'F'
    }
}

/// Formats a byte as two columns of upper-case hex.
pub fn hex2(v: u8) -> (r: String)
    ensures
        r@ == spec_hex2(v),
{
    let mut s = String::new();
    if v < 16 {
        push_char(&mut s, ' ');
        push_char(&mut s, digit_char(v));
    } else {
        push_char(&mut s, digit_char(v / 16));
        push_char(&mut s, digit_char(v % 16));
    }
    proof {
        assert(s@ =~= spec_hex2(v));
    }
    s
}

/// Formats a word as four columns of upper-case hex.
pub fn hex4(v: u16) -> (r: String)
    ensures
        r@ == spec_hex4(v),
{
    let mut s = String::new();
    if v < 16 {
        push_char(&mut s, ' ');
        push_char(&mut s, ' ');
        push_char(&mut s, ' ');
        push_char(&mut s, digit_char(v as u8));
    } else if v < 256 {
        push_char(&mut s, ' ');
        push_char(&mut s, ' ');
        push_char(&mut s, digit_char((v / 16) as u8));
        push_char(&mut s, digit_char((v % 16) as u8));
    } else if v < 4096 {
        push_char(&mut s, ' ');
        push_char(&mut s, digit_char((v / 256) as u8));
        push_char(&mut s, digit_char(((v / 16) % 16) as u8));
        push_char(&mut s, digit_char((v % 16) as u8));
    } else {
        push_char(&mut s, digit_char((v / 4096) as u8));
        push_char(&mut s, digit_char(((v / 256) % 16) as u8));
        push_char(&mut s, digit_char(((v / 16) % 16) as u8));
        push_char(&mut s, digit_char((v % 16) as u8));
    }
    proof {
        assert(s@ =~= spec_hex4(v));
    }
    s
}

/// Formats a byte in decimal.
pub fn dec_u8(n: u8) -> (r: String)
    ensures
        r@ == spec_dec_u8(n),
{
    let mut s = String::new();
    if n < 10 {
        push_char(&mut s, digit_char(n));
    } else if n < 100 {
        push_char(&mut s, digit_char(n / 10));
        push_char(&mut s, digit_char(n % 10));
    } else {
        push_char(&mut s, digit_char(n / 100));
        push_char(&mut s, digit_char((n / 10) % 10));
        push_char(&mut s, digit_char(n % 10));
    }
    proof {
        assert(s@ =~= spec_dec_u8(n));
    }
    s
}

/// The per-step trace line of an instruction: its mnemonic, with immediate
/// operands and selected register values formatted in. Observability, not
/// a stable protocol: an opcode the decoder does not know gets a fixed
/// placeholder.
pub open spec fn spec_decode(op: u8, m: MmuView, r: Registers) -> Seq<char> {
    if op < 0x40 {
        spec_decode_low(op, m, r)
    } else if op < 0xC0 {
        spec_decode_mid(op, m, r)
    } else {
        spec_decode_high(op, m, r)
    }
}

#[verifier::opaque]
pub open spec fn spec_decode_low(op: u8, m: MmuView, r: Registers) -> Seq<char> {
    if op == 0x00 {
        "NOP"@
    } else if op == 0x02 {
        "LD (BC), A (BC = "@ + spec_hex4(r.spec_bc()) + ", A = "@ + spec_hex2(r.a) + ")"@
    } else if op == 0x05 {
        "DEC B (B = "@ + spec_dec_u8(r.b) + ")"@
    } else if op == 0x06 {
        "LD B, "@ + spec_hex2(spec_byte_arg(m, r.pc))
    } else if op == 0x0C {
        "INC C"@
    } else if op == 0x0D {
        "DEC C (C = "@ + spec_hex2(r.c) + ")"@
    } else if op == 0x0E {
        "LD C, "@ + spec_hex2(spec_byte_arg(m, r.pc))
    } else if op == 0x11 {
        "LD DE, "@ + spec_hex4(spec_word_arg(m, r.pc))
    } else if op == 0x13 {
        "INC DE"@
    } else if op == 0x14 {
        "INC D"@
    } else if op == 0x15 {
        "DEC D"@
    } else if op == 0x17 {
        "RLA"@
    } else if op == 0x18 {
        "JR "@ + spec_dec_i8(spec_signed_of(spec_byte_arg(m, r.pc)))
    } else if op == 0x1A {
        "LD A,(DE)"@
    } else if op == 0x1F {
        "RRA"@
    } else if op == 0x20 {
        "JR NZ, "@ + spec_hex2(spec_byte_arg(m, r.pc))
    } else if op == 0x21 {
        "LD HL, "@ + spec_hex4(spec_word_arg(m, r.pc))
    } else if op == 0x22 {
        "LD (HL+),A"@
    } else if op == 0x23 {
        "INC HL"@
    } else if op == 0x25 {
        "DEC H"@
    } else if op == 0x28 {
        "JR Z,"@ + spec_dec_i8(spec_signed_of(spec_byte_arg(m, r.pc)))
    } else if op == 0x2E {
        "LD L,"@ + spec_hex2(spec_byte_arg(m, r.pc))
    } else if op == 0x31 {
        "LD SP, "@ + spec_hex4(spec_word_arg(m, r.pc))
    } else if op == 0x32 {
        "LD [HL-] (HL = "@ + spec_hex4(r.spec_hl()) + "), A (A = "@ + spec_hex2(r.a) + ")"@
    } else if op == 0x3E {
        "LD A, "@ + spec_hex2(spec_byte_arg(m, r.pc))
    } else if op == 0x3D {
        "DEC A"@
    } else {
        "NOT IMPLEMENTED IN DECODER"@
    }
}

#[verifier::opaque]
pub open spec fn spec_decode_mid(op: u8, m: MmuView, r: Registers) -> Seq<char> {
    if op == 0x4F {
        "LD C,A"@
    } else if op == 0x77 {
        "LD (HL),A"@
    } else if op == 0x7B {
        "LD A, E"@
    } else if op == 0xAF {
        "XOR A (A = "@ + spec_hex2(r.a) + ")"@
    } else if op == 0xB0 {
        "OR B"@
    } else if op == 0xB1 {
        "OR C"@
    } else if op == 0xB2 {
        "OR D"@
    } else if op == 0xB3 {
        "OR E"@
    } else if op == 0xB4 {
        "OR H"@
    } else if op == 0xB5 {
        "OR L"@
    } else if op == 0xB6 {
        "OR (BC)"@
    } else if op == 0xB7 {
        "OR A"@
    } else if op == 0xBF {
        "CP A"@
    } else {
        "NOT IMPLEMENTED IN DECODER"@
    }
}

#[verifier::opaque]
pub open spec fn spec_decode_high(op: u8, m: MmuView, r: Registers) -> Seq<char> {
    if op == 0xC1 {
        "POP BC"@
    } else if op == 0xC3 {
        "JP a16 "@ + spec_hex4(spec_word_arg(m, r.pc))
    } else if op == 0xC5 {
        "PUSH BC"@
    } else if op == 0xC9 {
        "RET"@
    } else if op == 0xCB {
        "CB "@ + spec_hex2(spec_byte_arg(m, r.pc))
    } else if op == 0xCD {
        "CALL "@ + spec_hex4(spec_word_arg(m, r.pc))
    } else if op == 0xE0 {
        "LDH ($FF00 + "@ + spec_hex2(spec_byte_arg(m, r.pc)) + "),A"@
    } else if op == 0xE2 {
        "LD ($FF00 + C),A"@
    } else if op == 0xEA {
        "LD ("@ + spec_hex4(spec_word_arg(m, r.pc)) + "),A"@
    } else if op == 0xF0 {
        "LDH A,($FF00 + "@ + spec_hex2(spec_byte_arg(m, r.pc)) + ")"@
    } else if op == 0xF3 {
        "DI"@
    } else if op == 0xF8 {
        "EI"@
    } else if op == 0xFE {
        "CP "@ + spec_hex2(spec_byte_arg(m, r.pc))
    } else {
        "NOT IMPLEMENTED IN DECODER"@
    }
}

/// The immediate byte after the opcode, with zero standing in where the
/// router cannot produce it.
fn byte_arg(mmu: &MMU, pc: u16) -> (r: u8)
    requires
        mmu@.wf(),
    ensures
        r == spec_byte_arg(mmu@, pc),
{
    let addr: u16 = if pc == 0xFFFF {
        0
    } else {
        pc + 1
    };
    match mmu.read(addr) {
        Ok(v) => v,
        Err(_) => 0,
    }
}

/// The immediate word after the opcode, with zero standing in where the
/// router cannot produce it.
fn word_arg(mmu: &MMU, pc: u16) -> (r: u16)
    requires
        mmu@.wf(),
    ensures
        r == spec_word_arg(mmu@, pc),
{
    let addr: u16 = if pc == 0xFFFF {
        0
    } else {
        pc + 1
    };
    match mmu.read_wide(addr) {
        Ok(v) => v,
        Err(_) => 0,
    }
}

fn signed_of(b: u8) -> (r: i8)
    ensures
        r == spec_signed_of(b),
{
    if b < 128 {
        b as i8
    } else {
        let m: u8 = 255 - b;
        -(m as i8) - 1
    }
}

/// One trace line for the instruction at the program counter, from its
/// opcode byte, the register file and the immediate bytes behind it.
pub fn decode_instruction(opcode: u8, mmu: &MMU, regs: &Registers) -> (r: String)
    requires
        mmu@.wf(),
    ensures
        r@ == spec_decode(opcode, mmu@, *regs),
{
    if opcode < 0x40 {
        decode_low(opcode, mmu, regs)
    } else if opcode < 0xC0 {
        decode_mid(opcode, mmu, regs)
    } else {
        decode_high(opcode, mmu, regs)
    }
}

#[verifier::rlimit(100)]
fn decode_low(opcode: u8, mmu: &MMU, regs: &Registers) -> (r: String)
    requires
        mmu@.wf(),
    ensures
        r@ == spec_decode_low(opcode, mmu@, *regs),
{
    proof {
        reveal(spec_decode_low);
    }
    if opcode == 0x00 {
        "NOP".to_owned()
    } else if opcode == 0x02 {
        let mut s = "LD (BC), A (BC = ".to_owned();
        push_str(&mut s, hex4(regs.get_bc()).as_str());
        push_str(&mut s, ", A = ");
        push_str(&mut s, hex2(regs.a).as_str());
        push_str(&mut s, ")");
        s
    } else if opcode == 0x05 {
        let mut s = "DEC B (B = ".to_owned();
        push_str(&mut s, dec_u8(regs.b).as_str());
        push_str(&mut s, ")");
        s
    } else if opcode == 0x06 {
        let mut s = "LD B, ".to_owned();
        push_str(&mut s, hex2(byte_arg(mmu, regs.pc)).as_str());
        s
    } else if opcode == 0x0C {
        "INC C".to_owned()
    } else if opcode == 0x0D {
        let mut s = "DEC C (C = ".to_owned();
        push_str(&mut s, hex2(regs.c).as_str());
        push_str(&mut s, ")");
        s
    } else if opcode == 0x0E {
        let mut s = "LD C, ".to_owned();
        push_str(&mut s, hex2(byte_arg(mmu, regs.pc)).as_str());
        s
    } else if opcode == 0x11 {
        let mut s = "LD DE, ".to_owned();
        push_str(&mut s, hex4(word_arg(mmu, regs.pc)).as_str());
        s
    } else if opcode == 0x13 {
        "INC DE".to_owned()
    } else if opcode == 0x14 {
        "INC D".to_owned()
    } else if opcode == 0x15 {
        "DEC D".to_owned()
    } else if opcode == 0x17 {
        "RLA".to_owned()
    } else if opcode == 0x18 {
        let mut s = "JR ".to_owned();
        push_str(&mut s, dec_i8(signed_of(byte_arg(mmu, regs.pc))).as_str());
        s
    } else if opcode == 0x1A {
        "LD A,(DE)".to_owned()
    } else if opcode == 0x1F {
        "RRA".to_owned()
    } else if opcode == 0x20 {
        let mut s = "JR NZ, ".to_owned();
        push_str(&mut s, hex2(byte_arg(mmu, regs.pc)).as_str());
        s
    } else if opcode == 0x21 {
        let mut s = "LD HL, ".to_owned();
        push_str(&mut s, hex4(word_arg(mmu, regs.pc)).as_str());
        s
    } else if opcode == 0x22 {
        "LD (HL+),A".to_owned()
    } else if opcode == 0x23 {
        "INC HL".to_owned()
    } else if opcode == 0x25 {
        "DEC H".to_owned()
    } else if opcode == 0x28 {
        let mut s = "JR Z,".to_owned();
        push_str(&mut s, dec_i8(signed_of(byte_arg(mmu, regs.pc))).as_str());
        s
    } else if opcode == 0x2E {
        let mut s = "LD L,".to_owned();
        push_str(&mut s, hex2(byte_arg(mmu, regs.pc)).as_str());
        s
    } else if opcode == 0x31 {
        let mut s = "LD SP, ".to_owned();
        push_str(&mut s, hex4(word_arg(mmu, regs.pc)).as_str());
        s
    } else if opcode == 0x32 {
        let mut s = "LD [HL-] (HL = ".to_owned();
        push_str(&mut s, hex4(regs.get_hl()).as_str());
        push_str(&mut s, "), A (A = ");
        push_str(&mut s, hex2(regs.a).as_str());
        push_str(&mut s, ")");
        s
    } else if opcode == 0x3E {
        let mut s = "LD A, ".to_owned();
        push_str(&mut s, hex2(byte_arg(mmu, regs.pc)).as_str());
        s
    } else if opcode == 0x3D {
        "DEC A".to_owned()
    } else {
        "NOT IMPLEMENTED IN DECODER".to_owned()
    }
}

fn decode_mid(opcode: u8, mmu: &MMU, regs: &Registers) -> (r: String)
    requires
        mmu@.wf(),
    ensures
        r@ == spec_decode_mid(opcode, mmu@, *regs),
{
    proof {
        reveal(spec_decode_mid);
    }
    if opcode == 0x4F {
        "LD C,A".to_owned()
    } else if opcode == 0x77 {
        "LD (HL),A".to_owned()
    } else if opcode == 0x7B {
        "LD A, E".to_owned()
    } else if opcode == 0xAF {
        let mut s = "XOR A (A = ".to_owned();
        push_str(&mut s, hex2(regs.a).as_str());
        push_str(&mut s, ")");
        s
    } else if opcode == 0xB0 {
        "OR B".to_owned()
    } else if opcode == 0xB1 {
        "OR C".to_owned()
    } else if opcode == 0xB2 {
        "OR D".to_owned()
    } else if opcode == 0xB3 {
        "OR E".to_owned()
    } else if opcode == 0xB4 {
        "OR H".to_owned()
    } else if opcode == 0xB5 {
        "OR L".to_owned()
    } else if opcode == 0xB6 {
        "OR (BC)".to_owned()
    } else if opcode == 0xB7 {
        "OR A".to_owned()
    } else if opcode == 0xBF {
        "CP A".to_owned()
    } else {
        "NOT IMPLEMENTED IN DECODER".to_owned()
    }
}

#[verifier::rlimit(100)]
fn decode_high(opcode: u8, mmu: &MMU, regs: &Registers) -> (r: String)
    requires
        mmu@.wf(),
    ensures
        r@ == spec_decode_high(opcode, mmu@, *regs),
{
    proof {
        reveal(spec_decode_high);
    }
    if opcode == 0xC1 {
        "POP BC".to_owned()
    } else if opcode == 0xC3 {
        let mut s = "JP a16 ".to_owned();
        push_str(&mut s, hex4(word_arg(mmu, regs.pc)).as_str());
        s
    } else if opcode == 0xC5 {
        "PUSH BC".to_owned()
    } else if opcode == 0xC9 {
        "RET".to_owned()
    } else if opcode == 0xCB {
        let mut s = "CB ".to_owned();
        push_str(&mut s, hex2(byte_arg(mmu, regs.pc)).as_str());
        s
    } else if opcode == 0xCD {
        let mut s = "CALL ".to_owned();
        push_str(&mut s, hex4(word_arg(mmu, regs.pc)).as_str());
        s
    } else if opcode == 0xE0 {
        let mut s = "LDH ($FF00 + ".to_owned();
        push_str(&mut s, hex2(byte_arg(mmu, regs.pc)).as_str());
        push_str(&mut s, "),A");
        s
    } else if opcode == 0xE2 {
        "LD ($FF00 + C),A".to_owned()
    } else if opcode == 0xEA {
        let mut s = "LD (".to_owned();
        push_str(&mut s, hex4(word_arg(mmu, regs.pc)).as_str());
        push_str(&mut s, "),A");
        s
    } else if opcode == 0xF0 {
        let mut s = "LDH A,($FF00 + ".to_owned();
        push_str(&mut s, hex2(byte_arg(mmu, regs.pc)).as_str());
        push_str(&mut s, ")");
        s
    } else if opcode == 0xF3 {
        "DI".to_owned()
    } else if opcode == 0xF8 {
        "EI".to_owned()
    } else if opcode == 0xFE {
        let mut s = "CP ".to_owned();
        push_str(&mut s, hex2(byte_arg(mmu, regs.pc)).as_str());
        s
    } else {
        "NOT IMPLEMENTED IN DECODER".to_owned()
    }
}

/// Formats a signed offset byte in decimal.
pub fn dec_i8(v: i8) -> (r: String)
    ensures
        r@ == spec_dec_i8(v),
{
    if v < 0 {
        let abs: u8 = (0 - (v as i16)) as u8;
        let mut s = String::new();
        push_char(&mut s, '-');
        push_str(&mut s, dec_u8(abs).as_str());
        proof {
            assert(s@ =~= spec_dec_i8(v));
        }
        s
    } else {
        dec_u8(v as u8)
    }
}

} // verus!
