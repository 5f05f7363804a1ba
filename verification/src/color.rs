//! CSS colours: parsing of the sRGB family and alpha arithmetic.

use vstd::prelude::*;

use crate::display_list;

pub mod alpha;
pub mod double;
pub mod hsl;
pub mod hues;
pub mod laws;
pub mod named;
pub mod names;
pub mod parse;
pub mod quantise;
pub mod writing;

verus! {

/// An sRGB colour with eight bits per channel.
#[derive(Clone, Copy, Debug, PartialEq, Eq, Hash, Structural)]
pub struct Color {
    pub r: u8,
    pub g: u8,
    pub b: u8,
    pub a: u8,
}

impl Color {
    /// The opaque colour with these channels.
    pub fn rgb(r: u8, g: u8, b: u8) -> (c: Color)
        ensures
            c == (Color { r, g, b, a: 255 }),
    {
        Color { r, g, b, a: 255 }
    }

    /// The colour with these channels.
    pub fn rgba(r: u8, g: u8, b: u8, a: u8) -> (c: Color)
        ensures
            c == (Color { r, g, b, a }),
    {
        Color { r, g, b, a }
    }

    /// The colour as the paint path takes it.
    pub fn to_display_list(self) -> (c: display_list::Color)
        ensures
            c == (display_list::Color { r: self.r, g: self.g, b: self.b, a: self.a }),
    {
        display_list::Color::rgba(self.r, self.g, self.b, self.a)
    }

    /// Transparent black.
    pub fn transparent() -> (c: Color)
        ensures
            c == (Color { r: 0, g: 0, b: 0, a: 0 }),
    {
        Color { r: 0, g: 0, b: 0, a: 0 }
    }

    /// Opaque black.
    pub fn black() -> (c: Color)
        ensures
            c == (Color { r: 0, g: 0, b: 0, a: 255 }),
    {
        Color { r: 0, g: 0, b: 0, a: 255 }
    }

    /// Opaque white.
    pub fn white() -> (c: Color)
        ensures
            c == (Color { r: 255, g: 255, b: 255, a: 255 }),
    {
        Color { r: 255, g: 255, b: 255, a: 255 }
    }
}

/// A colour value: a colour, or the keyword that the cascade resolves.
#[derive(Clone, Copy, Debug, PartialEq, Eq, Structural)]
pub enum ColorOrKeyword {
    Color(Color),
    /// `currentcolor`: the element's own resolved colour.
    CurrentColor,
}

impl From<Color> for ColorOrKeyword {
    fn from(c: Color) -> (r: ColorOrKeyword) {
        ColorOrKeyword::Color(c)
    }
}

impl vstd::std_specs::convert::FromSpecImpl<Color> for ColorOrKeyword {
    open spec fn obeys_from_spec() -> bool {
        true
    }

    open spec fn from_spec(c: Color) -> ColorOrKeyword {
        ColorOrKeyword::Color(c)
    }
}

/// Why a text is no colour.
#[derive(Clone, Debug, PartialEq, Eq)]
pub enum ColorParseError {
    Empty,
    InvalidHex(String),
    InvalidFunction(String),
    InvalidNumber(String),
    UnknownName(String),
    UnsupportedColorSpace(String),
}

/// [`ColorParseError`] with its text as characters.
#[verifier::ext_equal]
pub enum ColorFault {
    Empty,
    InvalidHex(Seq<char>),
    InvalidFunction(Seq<char>),
    InvalidNumber(Seq<char>),
    UnknownName(Seq<char>),
    UnsupportedColorSpace(Seq<char>),
}

impl View for ColorParseError {
    type V = ColorFault;

    open spec fn view(&self) -> ColorFault {
        match self {
            ColorParseError::Empty => ColorFault::Empty,
            ColorParseError::InvalidHex(s) => ColorFault::InvalidHex(s@),
            ColorParseError::InvalidFunction(s) => ColorFault::InvalidFunction(s@),
            ColorParseError::InvalidNumber(s) => ColorFault::InvalidNumber(s@),
            ColorParseError::UnknownName(s) => ColorFault::UnknownName(s@),
            ColorParseError::UnsupportedColorSpace(s) => ColorFault::UnsupportedColorSpace(s@),
        }
    }
}

} // verus!
