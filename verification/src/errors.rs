use vstd::prelude::*;

verus! {

/// Failure taxonomy of the emulation core. Every fatal condition is reported
/// through this type so that the driving loop decides whether to halt:
/// cartridge-load errors, opcodes without a handler, addresses outside every
/// defined router sub-range, and addresses inside recognized but not-yet-backed
/// regions.
#[derive(Clone, Copy, Debug, PartialEq, Eq, Structural)]
pub enum EmuError {
    /// The cartridge image is too short to hold the header.
    HeaderTooShort(usize),
    /// The compatibility-flag byte of the header is neither 0x00 nor 0x80.
    InvalidCompatFlag(u8),
    /// The cartridge-type byte selects a bank controller that is not implemented.
    UnsupportedCartridgeType(u8),
    /// An opcode with no handler in the main dispatch table.
    UnknownOpcode(u8),
    /// An opcode with no handler in the CB-prefixed dispatch table.
    UnknownCbOpcode(u8),
    /// An address outside every defined router sub-range.
    UnmappedAddress(u16),
    /// An address inside a recognized but not-yet-backed region.
    UnimplementedRegion(u16),
}

} // verus!
