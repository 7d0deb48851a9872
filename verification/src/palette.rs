use vstd::prelude::*;

verus! {

/// The four displayable shades of the monochrome screen.
#[derive(Clone, Copy, Debug, PartialEq, Eq, Structural)]
pub enum Colors {
    White,
    LightGray,
    DarkGray,
    Black,
}

/// The ARGB pixel value of a shade.
pub open spec fn spec_argb(c: Colors) -> u32 {
    match c {
        Colors::White => 0x00FF_FFFF,
        Colors::LightGray => 0x00D3_D3D3,
        Colors::DarkGray => 0x00A9_A9A9,
        Colors::Black => 0x0000_0000,
    }
}

/// The shade selected by a 2-bit color index: 0 is the lightest shade and 3
/// the darkest.
pub open spec fn spec_grayshade(color: u8) -> Colors {
    if color == 0 {
        Colors::White
    } else if color == 1 {
        Colors::LightGray
    } else if color == 2 {
        Colors::DarkGray
    } else {
        Colors::Black
    }
}

/// A palette byte packs four 2-bit shade indices: bits 0-1 select the shade
/// of color index 0, bits 2-3 of index 1, bits 4-5 of index 2, bits 6-7 of
/// index 3.
pub open spec fn spec_palette(reg: u8) -> Palette {
    Palette {
        register: reg,
        shade0: spec_grayshade((reg % 4) as u8),
        shade1: spec_grayshade(((reg / 4) % 4) as u8),
        shade2: spec_grayshade(((reg / 16) % 4) as u8),
        shade3: spec_grayshade((reg / 64) as u8),
    }
}

/// A decoded palette: the packed register byte together with the four shades
/// decoded from it. Re-decoding happens on every register write, never
/// lazily, so the shades always agree with the register byte.
#[derive(Clone, Copy, Debug, PartialEq, Eq, Structural)]
pub struct Palette {
    pub register: u8,
    pub shade0: Colors,
    pub shade1: Colors,
    pub shade2: Colors,
    pub shade3: Colors,
}

impl Palette {
    /// The decoded shade of a 2-bit color index.
    pub open spec fn spec_shade(self, color: u8) -> Colors {
        if color == 0 {
            self.shade0
        } else if color == 1 {
            self.shade1
        } else if color == 2 {
            self.shade2
        } else {
            self.shade3
        }
    }

    pub fn new(palette_reg: u8) -> (p: Palette)
        ensures
            p == spec_palette(palette_reg),
    {
        let color_0 = palette_reg % 4;
        let color_1 = (palette_reg / 4) % 4;
        let color_2 = (palette_reg / 16) % 4;
        let color_3 = palette_reg / 64;

        Palette {
            register: palette_reg,
            shade0: Palette::to_grayshade(color_0),
            shade1: Palette::to_grayshade(color_1),
            shade2: Palette::to_grayshade(color_2),
            shade3: Palette::to_grayshade(color_3),
        }
    }

    pub fn to_grayshade(color: u8) -> (r: Colors)
        requires
            color < 4,
        ensures
            r == spec_grayshade(color),
    {
        if color == 0 {
            Colors::White
        } else if color == 1 {
            Colors::LightGray
        } else if color == 2 {
            Colors::DarkGray
        } else {
            Colors::Black
        }
    }

    /// The ARGB pixel value of the decoded shade of a 2-bit color index.
    pub fn to_argb(&self, color: u8) -> (r: u32)
        requires
            color < 4,
        ensures
            r == spec_argb(self.spec_shade(color)),
    {
        let shade = if color == 0 {
            self.shade0
        } else if color == 1 {
            self.shade1
        } else if color == 2 {
            self.shade2
        } else {
            self.shade3
        };
        match shade {
            Colors::White => 0x00FF_FFFF,
            Colors::LightGray => 0x00D3_D3D3,
            Colors::DarkGray => 0x00A9_A9A9,
            Colors::Black => 0x0000_0000,
        }
    }
}

/// Palette decode is idempotent: decoding the register byte stored by a
/// decode gives the same palette again.
pub proof fn lemma_palette_decode_idempotent(reg: u8)
    ensures
        spec_palette(spec_palette(reg).register) == spec_palette(reg),
{
}

} // verus!
