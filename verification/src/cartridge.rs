use vstd::prelude::*;
use crate::cartridge_info::CartridgeInfo;
use crate::cartridge_info::spec_title;
use crate::errors::EmuError;

verus! {

/// A validated cartridge image together with the informational header
/// fields. Validation accepts an image only if it holds the whole header
/// and its compatibility-flag byte is 0x00 or 0x80.
pub struct Cartridge {
    pub rom_data: Vec<u8>,
    pub info: CartridgeInfo,
}

/// The result of cartridge validation: the image itself on success, else
/// the load error.
pub open spec fn spec_cartridge_new(data: Seq<u8>) -> Result<Seq<u8>, EmuError> {
    if data.len() < 0x150 {
        Err(EmuError::HeaderTooShort(data.len() as usize))
    } else if data[0x143] != 0x00 && data[0x143] != 0x80 {
        Err(EmuError::InvalidCompatFlag(data[0x143]))
    } else {
        Ok(data)
    }
}

impl Cartridge {
    pub fn new(rom_data: Vec<u8>) -> (r: Result<Cartridge, EmuError>)
        ensures
            match r {
                Ok(c) => {
                    &&& spec_cartridge_new(rom_data@) == Ok::<Seq<u8>, EmuError>(c.rom_data@)
                    &&& c.info.title@ == spec_title(rom_data@)
                },
                Err(e) => spec_cartridge_new(rom_data@) == Err::<Seq<u8>, EmuError>(e),
            },
    {
        if rom_data.len() < 0x150 {
            return Err(EmuError::HeaderTooShort(rom_data.len()));
        }

        let info = CartridgeInfo::new(&rom_data);

        let compat = rom_data[0x143];
        if compat != 0x00 && compat != 0x80 {
            return Err(EmuError::InvalidCompatFlag(compat));
        }

        Ok(Cartridge { rom_data, info })
    }

    /// The image byte at an address the image backs.
    pub fn read(&self, addr: u16) -> (r: u8)
        requires
            addr < self.rom_data@.len(),
        ensures
            r == self.rom_data@[addr as int],
    {
        self.rom_data[addr as usize]
    }
}

} // verus!
