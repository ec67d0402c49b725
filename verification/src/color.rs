//! Colors as the GX API takes them: four 8-bit components.

use vstd::prelude::*;

verus! {

/// An RGBA color with 8 bits per component, laid out as libogc's `GXColor`.
#[derive(Copy, Clone, Debug, PartialEq, Eq, Structural)]
pub struct Color {
    /// Red component.
    pub r: u8,
    /// Green component.
    pub g: u8,
    /// Blue component.
    pub b: u8,
    /// Alpha component; 255 is fully opaque.
    pub a: u8,
}

/// The alpha value of a fully opaque color.
pub const OPAQUE: u8 = 255;

impl Color {
    /// The color that `new(r, g, b)` makes.
    pub open spec fn spec_new(r: u8, g: u8, b: u8) -> Color {
        Color { r, g, b, a: OPAQUE }
    }

    /// The color that `with_alpha(r, g, b, a)` makes.
    pub open spec fn spec_with_alpha(r: u8, g: u8, b: u8, a: u8) -> Color {
        Color { r, g, b, a }
    }

    /// An opaque color: its alpha is 255.
    pub fn new(r: u8, g: u8, b: u8) -> (c: Color)
        ensures
            c == Color::spec_new(r, g, b),
            c.r == r && c.g == g && c.b == b,
            c.a == 255,
    {
        Self::with_alpha(r, g, b, OPAQUE)
    }

    /// A color with the given alpha.
    pub fn with_alpha(r: u8, g: u8, b: u8, a: u8) -> (c: Color)
        ensures
            c == Color::spec_with_alpha(r, g, b, a),
            c.r == r && c.g == g && c.b == b && c.a == a,
    {
        Color { r, g, b, a }
    }
}

} // verus!
