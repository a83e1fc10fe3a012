//! The two-byte record of one character cell.

use vstd::prelude::*;
use crate::color::ColorCode;

verus! {

/// The code of the space character, which fills a cleared cell.
pub const BLANK: u8 = 0x20;

/// One character cell: a character code and the attribute it is shown with.
/// On the device the character code is byte 0 and the attribute byte 1.
#[derive(Debug, Clone, Copy, PartialEq, Eq, Structural)]
pub struct ScreenChar {
    pub ascii_character: u8,
    pub color_code: ColorCode,
}

impl ScreenChar {
    /// The cell that the device bytes `(character, attribute)` stand for.
    pub open spec fn spec_from_pair(pair: (u8, u8)) -> ScreenChar {
        ScreenChar { ascii_character: pair.0, color_code: ColorCode::spec_from_byte(pair.1) }
    }

    /// The device bytes of the cell: character code first, attribute second.
    pub open spec fn spec_pair(self) -> (u8, u8) {
        (self.ascii_character, self.color_code@)
    }

    /// A space in the given attribute.
    pub open spec fn spec_blank(color_code: ColorCode) -> ScreenChar {
        ScreenChar { ascii_character: BLANK, color_code }
    }

    /// Encoding a cell and decoding the bytes gives the cell back.
    pub broadcast proof fn lemma_pair_round_trip(self)
        ensures
            ScreenChar::spec_from_pair(#[trigger] self.spec_pair()) == self,
    {
        ColorCode::lemma_byte_determines(self.color_code);
    }

    /// Decoding a byte pair and encoding the cell gives the bytes back.
    pub broadcast proof fn lemma_cell_round_trip(pair: (u8, u8))
        ensures
            (#[trigger] ScreenChar::spec_from_pair(pair)).spec_pair() == pair,
    {
        ColorCode::lemma_from_byte(pair.1);
    }

    /// The two bytes that the device holds for this cell.
    pub fn to_bytes(self) -> (bytes: [u8; 2])
        ensures
            bytes[0] == self.ascii_character,
            bytes[1] == self.color_code@,
            (bytes[0], bytes[1]) == self.spec_pair(),
        no_unwind
    {
        [self.ascii_character, self.color_code.value()]
    }

    /// The cell that two device bytes stand for.
    pub fn from_bytes(bytes: [u8; 2]) -> (cell: ScreenChar)
        ensures
            cell == ScreenChar::spec_from_pair((bytes[0], bytes[1])),
            cell.ascii_character == bytes[0],
            cell.color_code@ == bytes[1],
    {
        ScreenChar { ascii_character: bytes[0], color_code: ColorCode::from_byte(bytes[1]) }
    }

    /// A space in the given attribute.
    pub fn blank(color_code: ColorCode) -> (cell: ScreenChar)
        ensures
            cell == ScreenChar::spec_blank(color_code),
    {
        ScreenChar { ascii_character: BLANK, color_code }
    }
}

} // verus!
