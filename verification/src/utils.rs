//! Color values and the named palette.

use vstd::prelude::*;

verus! {

/// An 8-bit-per-channel RGBA color.
#[derive(Clone, Copy, Debug, PartialEq, Eq, Structural)]
pub struct Rgba {
    pub r: u8,
    pub g: u8,
    pub b: u8,
    pub a: u8,
}

impl Rgba {
    pub fn new(r: u8, g: u8, b: u8, a: u8) -> (c: Rgba)
        ensures
            c == (Rgba { r, g, b, a }),
    {
        Rgba { r, g, b, a }
    }
}

/// The named palette of constant colors.
pub struct Colors {}

#[allow(non_snake_case)]
impl Colors {
    pub fn TRANSPARENT() -> (c: Rgba)
        ensures
            c == (Rgba { r: 0, g: 0, b: 0, a: 0 }),
    {
        Rgba { r: 0, g: 0, b: 0, a: 0 }
    }

    pub fn WHITE() -> (c: Rgba)
        ensures
            c == (Rgba { r: 255, g: 255, b: 255, a: 255 }),
    {
        Rgba { r: 255, g: 255, b: 255, a: 255 }
    }

    pub fn BLACK() -> (c: Rgba)
        ensures
            c == (Rgba { r: 0, g: 0, b: 0, a: 255 }),
    {
        Rgba { r: 0, g: 0, b: 0, a: 255 }
    }

    pub fn RED() -> (c: Rgba)
        ensures
            c == (Rgba { r: 255, g: 0, b: 0, a: 255 }),
    {
        Rgba { r: 255, g: 0, b: 0, a: 255 }
    }

    pub fn GREEN() -> (c: Rgba)
        ensures
            c == (Rgba { r: 0, g: 255, b: 0, a: 255 }),
    {
        Rgba { r: 0, g: 255, b: 0, a: 255 }
    }

    pub fn BLUE() -> (c: Rgba)
        ensures
            c == (Rgba { r: 0, g: 0, b: 255, a: 255 }),
    {
        Rgba { r: 0, g: 0, b: 255, a: 255 }
    }
}

} // verus!
