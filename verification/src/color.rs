//! 8-bit sRGBA colors.

use vstd::prelude::*;

verus! {

/// An sRGBA color with 8 bits per channel.
#[derive(Clone, Copy, Debug, PartialEq, Eq, Structural)]
pub struct Color {
    pub r: u8,
    pub g: u8,
    pub b: u8,
    pub a: u8,
}

impl Color {
    /// Opaque white, the fixed caret color.
    pub open spec fn white_spec() -> Color {
        (Color { r: 255, g: 255, b: 255, a: 255 })
    }

    /// Opaque white, the fixed caret color.
    pub fn white() -> (c: Color)
        ensures
            c == Color::white_spec(),
    {
        Color { r: 255, g: 255, b: 255, a: 255 }
    }
}

} // verus!
