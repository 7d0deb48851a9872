use vstd::prelude::*;
use crate::text::push_char;

verus! {

/// The number of bytes of a header field that precede its first NUL:
/// `max` when no NUL occurs within the field.
pub open spec fn spec_nul_bounded_len(rom: Seq<u8>, start: int, max: nat) -> nat
    decreases max,
{
    if max == 0 {
        0
    } else if rom[start] == 0 {
        0
    } else {
        (1 + spec_nul_bounded_len(rom, start + 1, (max - 1) as nat)) as nat
    }
}

/// A prefix of all non-NUL bytes that ends at a NUL or at the field's end
/// is exactly the NUL-bounded length.
pub proof fn lemma_nul_bounded_len(rom: Seq<u8>, start: int, max: nat, k: nat)
    requires
        k <= max,
        forall|j: int| 0 <= j < k ==> #[trigger] rom[start + j] != 0,
        k < max ==> rom[start + k] == 0,
    ensures
        spec_nul_bounded_len(rom, start, max) == k,
    decreases max,
{
    if k == 0 {
    } else {
        assert(rom[start + 0] != 0);
        assert(forall|j: int| 0 <= j < k - 1 ==> #[trigger] rom[(start + 1) + j] != 0) by {
            assert(forall|j: int|
                0 <= j < k - 1 ==> #[trigger] rom[(start + 1) + j] == rom[start + (j + 1)]
                    && rom[start + (j + 1)] != 0);
        }
        lemma_nul_bounded_len(rom, start + 1, (max - 1) as nat, (k - 1) as nat);
    }
}

/// The title field of the cartridge header: 16 bytes at the fixed offset
/// 0x134, bounded by the field length and by the first NUL, decoded
/// byte-for-byte as characters. Non-authoritative: used only for display
/// and logging.
pub open spec fn spec_title(rom: Seq<u8>) -> Seq<char> {
    Seq::new(spec_nul_bounded_len(rom, 0x134, 16), |i: int| rom[0x134 + i] as char)
}

/// Informational fields extracted from a cartridge header.
pub struct CartridgeInfo {
    pub title: String,
}

impl CartridgeInfo {
    pub fn new(rom_data: &Vec<u8>) -> (r: CartridgeInfo)
        requires
            rom_data@.len() >= 0x144,
        ensures
            r.title@ == spec_title(rom_data@),
    {
        CartridgeInfo { title: CartridgeInfo::extract_title(rom_data) }
    }

    /// Reads the title bytes at their fixed header offset, stopping at the
    /// first NUL or at the end of the 16-byte field.
    pub fn extract_title(rom_data: &Vec<u8>) -> (r: String)
        requires
            rom_data@.len() >= 0x144,
        ensures
            r@ == spec_title(rom_data@),
    {
        let mut title = String::new();
        let mut i: usize = 0x134;
        while i < 0x144 && rom_data[i] != 0
            invariant
                0x134 <= i <= 0x144,
                rom_data@.len() >= 0x144,
                forall|j: int| 0 <= j < i - 0x134 ==> #[trigger] rom_data@[0x134 + j] != 0,
                title@ == Seq::new((i - 0x134) as nat, |k: int| rom_data@[0x134 + k] as char),
            decreases 0x144 - i,
        {
            push_char(&mut title, rom_data[i] as char);
            i = i + 1;
            proof {
                assert(title@ =~= Seq::new(
                    (i - 0x134) as nat,
                    |k: int| rom_data@[0x134 + k] as char,
                ));
            }
        }
        proof {
            lemma_nul_bounded_len(rom_data@, 0x134, 16, (i - 0x134) as nat);
            assert(title@ =~= spec_title(rom_data@));
        }
        title
    }
}

} // verus!
