//! The 16-color palette of the display device and the packed one-byte
//! attribute that selects a foreground/background pair for a cell.

use vstd::prelude::*;

verus! {

/// One of the 16 shades the device palette offers, with numeric codes 0
/// through 15 in declaration order (black, blue, green, cyan, red, magenta,
/// brown, light gray, dark gray, light blue, light green, light cyan, light
/// red, pink, yellow, white).
#[derive(Debug, Clone, Copy, PartialEq, Eq, Structural)]
pub enum Color {
    Black,
    Blue,
    Green,
    Cyan,
    Red,
    Magenta,
    Brown,
    LightGray,
    DarkGray,
    LightBlue,
    LightGreen,
    LightCyan,
    LightRed,
    Pink,
    Yellow,
    White,
}

impl Color {
    /// The 4-bit numeric code of this shade in the device palette.
    pub open spec fn spec_code(self) -> u8 {
        match self {
            Color::Black => 0,
            Color::Blue => 1,
            Color::Green => 2,
            Color::Cyan => 3,
            Color::Red => 4,
            Color::Magenta => 5,
            Color::Brown => 6,
            Color::LightGray => 7,
            Color::DarkGray => 8,
            Color::LightBlue => 9,
            Color::LightGreen => 10,
            Color::LightCyan => 11,
            Color::LightRed => 12,
            Color::Pink => 13,
            Color::Yellow => 14,
            Color::White => 15,
        }
    }

    /// Every palette code fits in the 4 bits a nibble of the attribute holds.
    pub proof fn lemma_code_fits_nibble(self)
        ensures
            self.spec_code() < 16,
    {
    }

    #[verifier::when_used_as_spec(spec_code)]
    pub fn code(self) -> (r: u8)
        ensures
            r == self.spec_code(),
    {
        match self {
            Color::Black => 0,
            Color::Blue => 1,
            Color::Green => 2,
            Color::Cyan => 3,
            Color::Red => 4,
            Color::Magenta => 5,
            Color::Brown => 6,
            Color::LightGray => 7,
            Color::DarkGray => 8,
            Color::LightBlue => 9,
            Color::LightGreen => 10,
            Color::LightCyan => 11,
            Color::LightRed => 12,
            Color::Pink => 13,
            Color::Yellow => 14,
            Color::White => 15,
        }
    }
}

/// A foreground and a background shade packed into one attribute byte, laid
/// out as the device expects: high nibble background, low nibble foreground.
#[derive(Debug, Clone, Copy, PartialEq, Eq, Structural)]
pub struct ColorCode(pub u8);

impl ColorCode {
    /// The packed attribute byte for a foreground/background pair.
    pub open spec fn spec_new(foreground: Color, background: Color) -> ColorCode {
        ColorCode((background.spec_code() << 4) | foreground.spec_code())
    }

    /// Packs `background` into bits 4-7 and `foreground` into bits 0-3. Any
    /// shade combines with any other; the decode clauses state that each
    /// nibble of the result gives back the code it was packed from.
    pub fn new(foreground: Color, background: Color) -> (r: ColorCode)
        ensures
            r == ColorCode::spec_new(foreground, background),
            r.0 >> 4 == background.spec_code(),
            r.0 & 0x0F == foreground.spec_code(),
    {
        let fg = foreground.code();
        let bg = background.code();
        let packed: u8 = (bg << 4) | fg;
        proof {
            lemma_pack_unpack(fg, bg);
        }
        ColorCode(packed)
    }
}

/// Packing two nibbles into a byte loses nothing: the high nibble of
/// `(bg << 4) | fg` is `bg` again and the low nibble is `fg` again.
pub proof fn lemma_pack_unpack(fg: u8, bg: u8)
    requires
        fg < 16,
        bg < 16,
    ensures
        ((bg << 4) | fg) >> 4 == bg,
        ((bg << 4) | fg) & 0x0F == fg,
{
    assert(fg < 16 && bg < 16 ==> ((bg << 4) | fg) >> 4 == bg && ((bg << 4) | fg) & 0x0F == fg)
        by (bit_vector);
}

} // verus!
