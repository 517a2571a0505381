//! Packed 8-bit RGBA colours.

use vstd::prelude::*;
use vstd::std_specs::cmp::PartialEqSpec;

verus! {

/// A colour with four 8-bit channels.
#[derive(Debug, Clone, Copy)]
pub struct Color {
    pub r: u8,
    pub g: u8,
    pub b: u8,
    pub alpha: u8,
}

impl PartialEq for Color {
    fn eq(&self, other: &Self) -> (equal: bool) {
        (self.r == other.r) && (self.g == other.g) && (self.b == other.b) && (self.alpha
            == other.alpha)
    }
}

impl vstd::std_specs::cmp::PartialEqSpecImpl for Color {
    open spec fn obeys_eq_spec() -> bool {
        true
    }

    /// Two colours are equal exactly when all four channels agree.
    open spec fn eq_spec(&self, other: &Color) -> bool {
        self.r == other.r && self.g == other.g && self.b == other.b && self.alpha == other.alpha
    }
}

impl Eq for Color {

}

/// The nearest value to `level` that an 8-bit channel can hold.
pub open spec fn saturated(level: int) -> int {
    if level < 0 {
        0
    } else if level > 255 {
        255
    } else {
        level
    }
}

/// Narrows a channel level to 8 bits: levels below 0 become 0, levels above
/// 255 become 255, and every other level is kept.
pub fn saturate(level: i64) -> (channel: u8)
    ensures
        channel == saturated(level as int),
{
    if level < 0 {
        0
    } else if level > 255 {
        255
    } else {
        level as u8
    }
}

impl Color {
    /// This colour with its red, green and blue channels replaced by the
    /// saturated levels, and its alpha kept.
    pub open spec fn relit(self, r: int, g: int, b: int) -> Color {
        Color {
            r: saturated(r) as u8,
            g: saturated(g) as u8,
            b: saturated(b) as u8,
            alpha: self.alpha,
        }
    }

    /// Black at this colour's alpha: what a shadowed or back-facing point
    /// is painted with.
    pub open spec fn unlit(self) -> Color {
        Color { r: 0, g: 0, b: 0, alpha: self.alpha }
    }

    /// Builds the colour that results from lighting this one.
    ///
    /// `r`, `g` and `b` are the channel levels after the brightness factor
    /// has been applied and the product rounded to the nearest integer. Each
    /// is saturated into the 8-bit range; alpha is left unchanged.
    pub fn with_levels(self, r: i64, g: i64, b: i64) -> (lit: Color)
        ensures
            lit == self.relit(r as int, g as int, b as int),
    {
        Color { r: saturate(r), g: saturate(g), b: saturate(b), alpha: self.alpha }
    }
}

/// Colour equality is identity: `==` holds exactly of a colour and itself.
pub proof fn lemma_color_eq_is_identity(a: Color, b: Color)
    ensures
        a.eq_spec(&b) <==> a == b,
{
}

/// Levels that already fit a channel pass through saturation unchanged.
pub proof fn lemma_saturated_keeps_channel(level: int)
    requires
        0 <= level <= 255,
    ensures
        saturated(level) == level,
{
}

/// Saturation is monotone: a brighter level never yields a darker channel.
pub proof fn lemma_saturated_monotone(low: int, high: int)
    requires
        low <= high,
    ensures
        saturated(low) <= saturated(high),
{
}

/// A colour lit at zero brightness is black with its alpha preserved.
pub proof fn lemma_zero_levels_unlit(c: Color)
    ensures
        c.relit(0, 0, 0) == c.unlit(),
{
}

/// A colour lit at full brightness, so that every level equals the channel
/// it came from, is unchanged.
pub proof fn lemma_own_levels_unchanged(c: Color)
    ensures
        c.relit(c.r as int, c.g as int, c.b as int) == c,
{
}

} // verus!
