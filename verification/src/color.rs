//! ARGB colors: packing to a 32-bit value, a darkness test, and the
//! 20% lighten/darken transforms used for grid lines.

use vstd::prelude::*;

verus! {

/// A color with one byte per channel: alpha, red, green, blue.
#[derive(Clone, Copy, PartialEq, Eq, Structural, Debug)]
pub struct Argb {
    pub a: u8,
    pub r: u8,
    pub g: u8,
    pub b: u8,
}

/// One fifth of the distance moved by `lighten` and `darken`: a 20% step.
pub const SHADE_DENOMINATOR: u8 = 5;

impl Argb {
    /// The packed 32-bit value: alpha in the top byte, then red, green, blue.
    pub open spec fn packed(self) -> int {
        self.a * 0x100_0000 + self.r * 0x1_0000 + self.g * 0x100 + self.b
    }

    /// A color is dark when its channel average is below 128.
    pub open spec fn spec_is_dark(self) -> bool {
        self.r + self.g + self.b < 384
    }

    /// Each color channel moved a fifth of the way toward 255; alpha kept.
    pub open spec fn spec_lightened(self) -> Argb {
        Argb {
            a: self.a,
            r: lighten_channel(self.r as int) as u8,
            g: lighten_channel(self.g as int) as u8,
            b: lighten_channel(self.b as int) as u8,
        }
    }

    /// Each color channel reduced by a fifth of its value; alpha kept.
    pub open spec fn spec_darkened(self) -> Argb {
        Argb {
            a: self.a,
            r: darken_channel(self.r as int) as u8,
            g: darken_channel(self.g as int) as u8,
            b: darken_channel(self.b as int) as u8,
        }
    }

    pub fn new(a: u8, r: u8, g: u8, b: u8) -> (c: Argb)
        ensures
            c == (Argb { a, r, g, b }),
    {
        Argb { a, r, g, b }
    }

    /// Fully transparent: every channel zero, packing to 0.
    pub fn transparent() -> (c: Argb)
        ensures
            c == (Argb { a: 0, r: 0, g: 0, b: 0 }),
            c.packed() == 0,
    {
        Argb { a: 0, r: 0, g: 0, b: 0 }
    }

    /// Opaque black, packing to 0xFF00_0000.
    pub fn black() -> (c: Argb)
        ensures
            c == (Argb { a: 0xFF, r: 0, g: 0, b: 0 }),
            c.packed() == 0xFF00_0000,
    {
        Argb { a: 0xFF, r: 0, g: 0, b: 0 }
    }

    /// Opaque white, packing to 0xFFFF_FFFF.
    pub fn white() -> (c: Argb)
        ensures
            c == (Argb { a: 0xFF, r: 0xFF, g: 0xFF, b: 0xFF }),
            c.packed() == 0xFFFF_FFFF,
    {
        Argb { a: 0xFF, r: 0xFF, g: 0xFF, b: 0xFF }
    }

    /// The packed ARGB value as an executable 32-bit word.
    pub fn to_u32(&self) -> (p: u32)
        ensures
            p as int == self.packed(),
    {
        (self.a as u32) * 0x100_0000 + (self.r as u32) * 0x1_0000 + (self.g as u32) * 0x100
            + (self.b as u32)
    }

    pub fn is_dark(&self) -> (dark: bool)
        ensures
            dark == self.spec_is_dark(),
    {
        (self.r as u16) + (self.g as u16) + (self.b as u16) < 384
    }

    /// Lighten by 20%: move each channel a fifth of the way toward 255.
    pub fn lighten(&self) -> (c: Argb)
        ensures
            c == self.spec_lightened(),
    {
        Argb {
            a: self.a,
            r: self.r + (255 - self.r) / SHADE_DENOMINATOR,
            g: self.g + (255 - self.g) / SHADE_DENOMINATOR,
            b: self.b + (255 - self.b) / SHADE_DENOMINATOR,
        }
    }

    /// Darken by 20%: reduce each channel by a fifth of its value.
    pub fn darken(&self) -> (c: Argb)
        ensures
            c == self.spec_darkened(),
    {
        Argb {
            a: self.a,
            r: self.r - self.r / SHADE_DENOMINATOR,
            g: self.g - self.g / SHADE_DENOMINATOR,
            b: self.b - self.b / SHADE_DENOMINATOR,
        }
    }
}

/// A channel moved a fifth of the way up toward 255.
pub open spec fn lighten_channel(c: int) -> int {
    c + (255 - c) / 5
}

/// A channel reduced by a fifth of its value.
pub open spec fn darken_channel(c: int) -> int {
    c - c / 5
}

} // verus!
