//! Colour values, 4 components, R8G8B8A8 (32bit).

use vstd::prelude::*;

verus! {

/// Color, 4 components, R8G8B8A8 (32bit)
#[derive(Debug, Clone, Copy, PartialEq, Eq, Structural)]
#[must_use]
pub struct Color {
    /// Color red value
    pub r: u8,
    /// Color green value
    pub g: u8,
    /// Color blue value
    pub b: u8,
    /// Color alpha value
    pub a: u8,
}

/// Constructs an opaque RGB color
#[inline]
pub fn rgb(r: u8, g: u8, b: u8) -> (c: Color)
    ensures
        c == (Color { r, g, b, a: 255 }),
{
    Color { r, g, b, a: 255 }
}

impl Color {
    /// Constructs a color from its four channels.
    pub fn new(r: u8, g: u8, b: u8, a: u8) -> (c: Self)
        ensures
            c == (Color { r, g, b, a }),
    {
        Self { r, g, b, a }
    }

    /// True when the color is fully opaque.
    pub fn is_opaque(self) -> (r: bool)
        ensures
            r == (self.a == 255),
    {
        self.a == 255
    }
}

impl Default for Color {
    /// Transparent black, every channel zero.
    fn default() -> (c: Self)
        ensures
            c == (Color { r: 0, g: 0, b: 0, a: 0 }),
    {
        Self { r: 0, g: 0, b: 0, a: 0 }
    }
}

} // verus!
