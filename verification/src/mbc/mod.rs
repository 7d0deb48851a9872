use vstd::prelude::*;
use crate::errors::EmuError;

pub mod mbc0;

verus! {

/// The capability set of a cartridge bank controller: reads and writes to
/// the cartridge ROM and external-RAM windows, and the header's name field
/// for display and logging. Reads of addresses that the cartridge image
/// does not back are a hard failure.
pub trait MBC {
    fn read_rom(&self, addr: u16) -> Result<u8, EmuError>;

    fn read_ram(&self, addr: u16) -> u8;

    fn write_rom(&mut self, addr: u16, val: u8);

    fn write_ram(&mut self, addr: u16, val: u8);

    fn rom_name(&self) -> String;
}

/// The length of the header's name field, selected by the compatibility
/// flag byte: 11 bytes under the newer-hardware flags, 16 otherwise.
pub open spec fn spec_name_field_len(flag: u8) -> nat {
    if flag == 0x80 || flag == 0xC0 {
        11
    } else {
        16
    }
}

/// The name field of a cartridge image: bytes from the fixed offset 0x134,
/// bounded by the first NUL and by the field length the compatibility flag
/// selects.
pub open spec fn spec_rom_name(rom: Seq<u8>) -> Seq<char> {
    Seq::new(
        crate::cartridge_info::spec_nul_bounded_len(
            rom,
            0x134,
            spec_name_field_len(rom[0x143]),
        ),
        |i: int| rom[0x134 + i] as char,
    )
}

/// The smallest image that still holds the whole cartridge header.
pub open spec fn spec_min_rom_len() -> int {
    0x150
}

/// The result of selecting and building a bank controller from a cartridge
/// image: the ROM contents on success, else the load error. The
/// compatibility-flag byte (offset 0x143) must be 0x00 or 0x80 and the
/// cartridge-type byte (offset 0x147) must select the no-banking controller.
pub open spec fn spec_load_cartridge(data: Seq<u8>) -> Result<Seq<u8>, EmuError> {
    if data.len() < spec_min_rom_len() {
        Err(EmuError::HeaderTooShort(data.len() as usize))
    } else if data[0x143] != 0x00 && data[0x143] != 0x80 {
        Err(EmuError::InvalidCompatFlag(data[0x143]))
    } else if data[0x147] != 0x00 {
        Err(EmuError::UnsupportedCartridgeType(data[0x147]))
    } else {
        Ok(data)
    }
}

/// Selects the bank-controller implementation named by the cartridge-type
/// byte of the header and hands it the image. Only the no-banking controller
/// is implemented; an unrecognized type, a bad compatibility flag or an
/// image too short for the header is a fatal load error.
pub fn load_cartridge(data: Vec<u8>) -> (r: Result<mbc0::MBC0, EmuError>)
    ensures
        match r {
            Ok(m) => spec_load_cartridge(data@) == Ok::<Seq<u8>, EmuError>(m.rom@),
            Err(e) => spec_load_cartridge(data@) == Err::<Seq<u8>, EmuError>(e),
        },
{
    if data.len() < 0x150 {
        return Err(EmuError::HeaderTooShort(data.len()));
    }
    let compat = data[0x143];
    if compat != 0x00 && compat != 0x80 {
        return Err(EmuError::InvalidCompatFlag(compat));
    }
    let cart_type = data[0x147];
    if cart_type != 0x00 {
        return Err(EmuError::UnsupportedCartridgeType(cart_type));
    }
    Ok(mbc0::MBC0::new(data))
}

} // verus!
