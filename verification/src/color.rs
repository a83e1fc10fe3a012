//! The sixteen display colours and the packed attribute byte built from two of them.

use vstd::prelude::*;

verus! {

/// One of the sixteen colours of the text-mode palette.
#[allow(dead_code)]
#[derive(Debug, Clone, Copy, PartialEq, Eq, Structural)]
pub enum Color {
    Black,
    Blue,
    Green,
    Cyan,
    Red,
    Magenta,
    Brown,
    LightGray,
    DarkGray,
    LightBlue,
    LightGreen,
    LightCyan,
    LightRed,
    Pink,
    Yellow,
    White,
}

impl Color {
    /// The hardware code of the colour, a four-bit number.
    pub open spec fn spec_code(self) -> u8 {
        match self {
            Color::Black => 0,
            Color::Blue => 1,
            Color::Green => 2,
            Color::Cyan => 3,
            Color::Red => 4,
            Color::Magenta => 5,
            Color::Brown => 6,
            Color::LightGray => 7,
            Color::DarkGray => 8,
            Color::LightBlue => 9,
            Color::LightGreen => 10,
            Color::LightCyan => 11,
            Color::LightRed => 12,
            Color::Pink => 13,
            Color::Yellow => 14,
            Color::White => 15,
        }
    }

    /// The hardware code of the colour.
    #[verifier::when_used_as_spec(spec_code)]
    pub fn code(self) -> (c: u8)
        ensures
            c == self.spec_code(),
            c < 16,
    {
        match self {
            Color::Black => 0,
            Color::Blue => 1,
            Color::Green => 2,
            Color::Cyan => 3,
            Color::Red => 4,
            Color::Magenta => 5,
            Color::Brown => 6,
            Color::LightGray => 7,
            Color::DarkGray => 8,
            Color::LightBlue => 9,
            Color::LightGreen => 10,
            Color::LightCyan => 11,
            Color::LightRed => 12,
            Color::Pink => 13,
            Color::Yellow => 14,
            Color::White => 15,
        }
    }
}

/// The attribute byte for `foreground` on `background`: the background's code in
/// the high nibble, the foreground's in the low one.
pub open spec fn packed(foreground: Color, background: Color) -> u8 {
    (background.spec_code() * 16 + foreground.spec_code()) as u8
}

/// A foreground and a background colour packed into one attribute byte.
#[derive(Debug, Clone, Copy, PartialEq, Eq, Structural)]
pub struct ColorCode(u8);

impl View for ColorCode {
    type V = u8;

    closed spec fn view(&self) -> u8 {
        self.0
    }
}

impl ColorCode {
    /// The attribute whose packed byte is `byte`.
    pub closed spec fn spec_from_byte(byte: u8) -> ColorCode {
        ColorCode(byte)
    }

    /// The attribute built from a byte packs to that byte.
    pub broadcast proof fn lemma_from_byte(byte: u8)
        ensures
            (#[trigger] ColorCode::spec_from_byte(byte))@ == byte,
    {
    }

    /// An attribute is determined by its packed byte: building one from the
    /// byte of another gives that other back.
    pub broadcast proof fn lemma_byte_determines(code: ColorCode)
        ensures
            ColorCode::spec_from_byte(#[trigger] code@) == code,
    {
    }

    /// Packs a colour pair: `(background << 4) | foreground`.
    pub fn new(foreground: Color, background: Color) -> (code: ColorCode)
        ensures
            code@ == packed(foreground, background),
            code@ == (background.spec_code() << 4) | foreground.spec_code(),
            code@ & 0x0f == foreground.spec_code(),
            code@ >> 4 == background.spec_code(),
    {
        let fg: u8 = foreground.code();
        let bg: u8 = background.code();
        assert((bg << 4) | fg == (bg * 16 + fg) as u8 && ((bg << 4) | fg) & 0x0f == fg && ((bg << 4)
            | fg) >> 4 == bg) by (bit_vector)
            requires
                fg < 16,
                bg < 16,
        ;
        ColorCode(bg << 4 | fg)
    }

    /// The attribute with the given packed byte, as it is read back from a cell.
    pub fn from_byte(byte: u8) -> (code: ColorCode)
        ensures
            code == ColorCode::spec_from_byte(byte),
            code@ == byte,
    {
        ColorCode(byte)
    }

    /// The packed attribute byte.
    pub fn value(&self) -> (byte: u8)
        ensures
            byte == self@,
        no_unwind
    {
        self.0
    }
}

} // verus!
