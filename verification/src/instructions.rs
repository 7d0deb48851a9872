use vstd::prelude::*;

verus! {

/// A row of the instruction table: mnemonic, encoded length in bytes and
/// base cycle cost.
#[derive(Clone, Copy, Debug)]
pub struct Instruction {
    pub name: &'static str,
    pub length: u16,
    pub cycles: u8,
}

/// The table rows catalogued so far, by opcode value.
pub fn instruction_info(opcode: u8) -> (r: Option<Instruction>)
    ensures
        match r {
            Some(i) => {
                &&& (opcode == 0x00 || opcode == 0x01)
                &&& (opcode == 0x00 ==> i.name@ == "NOP"@ && i.length == 1 && i.cycles == 4)
                &&& (opcode == 0x01 ==> i.name@ == "LD BC, d16"@ && i.length == 3
                    && i.cycles == 12)
            },
            None => opcode != 0x00 && opcode != 0x01,
        },
{
    if opcode == 0x00 {
        Some(Instruction { name: "NOP", length: 1, cycles: 4 })
    } else if opcode == 0x01 {
        Some(Instruction { name: "LD BC, d16", length: 3, cycles: 12 })
    } else {
        None
    }
}

} // verus!
