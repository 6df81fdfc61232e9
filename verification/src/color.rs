//! Color values stored in the pixel canvas: plain 8-bit RGBA components.

use vstd::prelude::*;

verus! {

/// One pixel's color, as 8-bit red, green, blue and alpha components.
#[derive(Clone, Copy, PartialEq, Eq, Structural, Debug)]
pub struct Color {
    pub r: u8,
    pub g: u8,
    pub b: u8,
    pub a: u8,
}

impl Color {
    /// Opaque black, the default color of a freshly constructed canvas.
    pub open spec fn black_spec() -> Color {
        Color { r: 0, g: 0, b: 0, a: 255 }
    }

    /// Opaque green.
    pub open spec fn green_spec() -> Color {
        Color { r: 0, g: 255, b: 0, a: 255 }
    }

    pub fn new(r: u8, g: u8, b: u8, a: u8) -> (c: Color)
        ensures
            c == (Color { r, g, b, a }),
    {
        Color { r, g, b, a }
    }

    pub fn black() -> (c: Color)
        ensures
            c == Color::black_spec(),
    {
        Color { r: 0, g: 0, b: 0, a: 255 }
    }

    pub fn green() -> (c: Color)
        ensures
            c == Color::green_spec(),
    {
        Color { r: 0, g: 255, b: 0, a: 255 }
    }
}

} // verus!
