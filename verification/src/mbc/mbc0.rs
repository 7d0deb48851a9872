use vstd::prelude::*;
use crate::cartridge_info::lemma_nul_bounded_len;
use crate::errors::EmuError;
use crate::mbc::MBC;
use crate::mbc::spec_name_field_len;
use crate::mbc::spec_rom_name;
use crate::text::push_char;

verus! {

/// The no-banking controller: the whole cartridge image is flat ROM, writes
/// are ignored, and external-RAM reads return a fixed value.
pub struct MBC0 {
    pub rom: Vec<u8>,
}

/// A flat-ROM read: the image byte at the address, or a hard failure past
/// the end of the image.
pub open spec fn spec_mbc0_read_rom(rom: Seq<u8>, addr: u16) -> Result<u8, EmuError> {
    if addr < rom.len() {
        Ok(rom[addr as int])
    } else {
        Err(EmuError::UnmappedAddress(addr))
    }
}

impl MBC0 {
    pub fn new(rom: Vec<u8>) -> (m: MBC0)
        ensures
            m.rom@ == rom@,
    {
        MBC0 { rom }
    }

    pub fn rom_read(&self, addr: u16) -> (r: Result<u8, EmuError>)
        ensures
            r == spec_mbc0_read_rom(self.rom@, addr),
    {
        if (addr as usize) < self.rom.len() {
            Ok(self.rom[addr as usize])
        } else {
            Err(EmuError::UnmappedAddress(addr))
        }
    }

    /// External cartridge RAM is absent on a no-banking cartridge; reads
    /// return a fixed value.
    pub fn ram_read(&self, addr: u16) -> (r: u8)
        ensures
            r == 0,
    {
        let _ = addr;
        0
    }

    /// The flat image is read-only: ROM writes are ignored.
    pub fn rom_write(&mut self, addr: u16, val: u8)
        ensures
            *final(self) == *old(self),
    {
        let _ = addr;
        let _ = val;
    }

    /// External cartridge RAM is absent: writes are ignored.
    pub fn ram_write(&mut self, addr: u16, val: u8)
        ensures
            *final(self) == *old(self),
    {
        let _ = addr;
        let _ = val;
    }

    /// The header's name field: bytes from offset 0x134, stopping at the
    /// first NUL or at the field length the compatibility flag selects.
    pub fn rom_title(&self) -> (r: String)
        requires
            self.rom@.len() >= 0x144,
        ensures
            r@ == spec_rom_name(self.rom@),
    {
        let field: usize = if self.rom[0x143] == 0x80 || self.rom[0x143] == 0xC0 {
            11
        } else {
            16
        };
        let mut name = String::new();
        let mut i: usize = 0;
        while i < field && self.rom[0x134 + i] != 0
            invariant
                i <= field,
                field == spec_name_field_len(self.rom@[0x143]),
                self.rom@.len() >= 0x144,
                forall|j: int| 0 <= j < i ==> #[trigger] self.rom@[0x134 + j] != 0,
                name@ == Seq::new(i as nat, |k: int| self.rom@[0x134 + k] as char),
            decreases field - i,
        {
            push_char(&mut name, self.rom[0x134 + i] as char);
            i = i + 1;
            proof {
                assert(name@ =~= Seq::new(i as nat, |k: int| self.rom@[0x134 + k] as char));
            }
        }
        proof {
            lemma_nul_bounded_len(
                self.rom@,
                0x134,
                spec_name_field_len(self.rom@[0x143]),
                i as nat,
            );
            assert(name@ =~= spec_rom_name(self.rom@));
        }
        name
    }
}

impl MBC for MBC0 {
    fn read_rom(&self, addr: u16) -> Result<u8, EmuError> {
        self.rom_read(addr)
    }

    fn read_ram(&self, addr: u16) -> u8 {
        self.ram_read(addr)
    }

    fn write_rom(&mut self, addr: u16, val: u8) {
        self.rom_write(addr, val);
    }

    fn write_ram(&mut self, addr: u16, val: u8) {
        self.ram_write(addr, val);
    }

    /// An image too short to hold the whole name field yields an empty
    /// name rather than a fault: the field is display-only.
    fn rom_name(&self) -> String {
        if self.rom.len() >= 0x144 {
            self.rom_title()
        } else {
            String::new()
        }
    }
}

} // verus!
