//! The color vocabulary of the declarative model, and its resolution into the
//! runtime-native color representation.
//!
//! Normalized color components (red, green, blue, hue, saturation, lightness,
//! alpha — each expected in the unit interval) are carried as the IEEE-754
//! bit patterns of 32-bit floating-point numbers. The model never computes
//! with the components; it only passes them through, so the bit pattern is the
//! exact value the runtime receives. Out-of-range components are not rejected
//! here: clamping is the runtime's business.

use vstd::prelude::*;

verus! {

/// The bit pattern of the 32-bit floating-point number one: the implicit
/// full-opacity alpha component used when a color form without an alpha
/// channel is promoted to the corresponding form with one.
pub const UNIT_ONE_BITS: u32 = 0x3F80_0000;

/// A color in one of six declarative forms. Exactly one variant is active
/// per value; no variant is range-checked by the model.
#[derive(Clone, Copy, Debug, PartialEq, Eq, Structural)]
pub enum Color {
    /// A packed `0xRRGGBB` integer; full opacity is implied.
    RgbHex(u32),
    /// A packed `0xRRGGBBAA` integer carrying its own alpha byte.
    RgbaHex(u32),
    /// Normalized red, green and blue components as IEEE-754 bit patterns;
    /// alpha is implicitly one.
    Rgb { r: u32, g: u32, b: u32 },
    /// Normalized red, green, blue and alpha components as IEEE-754 bit
    /// patterns.
    Rgba { r: u32, g: u32, b: u32, a: u32 },
    /// Normalized hue, saturation and lightness components as IEEE-754 bit
    /// patterns; alpha is implicitly one.
    Hsl { h: u32, s: u32, l: u32 },
    /// Normalized hue, saturation, lightness and alpha components as IEEE-754
    /// bit patterns.
    Hsla { h: u32, s: u32, l: u32, a: u32 },
}

/// A color resolved to one of the runtime's native constructor forms.
///
/// `Rgba8` carries one byte per channel, as unpacked from a packed hex color.
/// `RgbaUnit` and `HslaUnit` carry normalized components in the unit interval,
/// as IEEE-754 bit patterns, exactly as the declarative form held them.
#[derive(Clone, Copy, Debug, PartialEq, Eq, Structural)]
#[allow(inconsistent_fields)]
pub enum ResolvedColor {
    /// Red, green, blue and alpha, one byte each, 255 meaning full intensity.
    Rgba8 { r: u8, g: u8, b: u8, a: u8 },
    /// Normalized red, green, blue and alpha bit patterns.
    RgbaUnit { r: u32, g: u32, b: u32, a: u32 },
    /// Normalized hue, saturation, lightness and alpha bit patterns.
    HslaUnit { h: u32, s: u32, l: u32, a: u32 },
}

impl Color {
    /// What resolution returns for each declarative color form.
    ///
    /// A packed RGB hex unpacks to its three bytes with a full-opacity alpha
    /// byte; a packed RGBA hex carries its own alpha byte lowest. The
    /// component-wise forms pass their bit patterns through unchanged, the
    /// alpha-less forms being promoted with an alpha of one.
    pub open spec fn resolve_spec(self) -> ResolvedColor {
        match self {
            Color::RgbHex(hex) => ResolvedColor::Rgba8 {
                r: ((hex >> 16) & 0xff) as u8,
                g: ((hex >> 8) & 0xff) as u8,
                b: (hex & 0xff) as u8,
                a: 255,
            },
            Color::RgbaHex(hex) => ResolvedColor::Rgba8 {
                r: ((hex >> 24) & 0xff) as u8,
                g: ((hex >> 16) & 0xff) as u8,
                b: ((hex >> 8) & 0xff) as u8,
                a: (hex & 0xff) as u8,
            },
            Color::Rgb { r, g, b } => ResolvedColor::RgbaUnit { r, g, b, a: UNIT_ONE_BITS },
            Color::Rgba { r, g, b, a } => ResolvedColor::RgbaUnit { r, g, b, a },
            Color::Hsl { h, s, l } => ResolvedColor::HslaUnit { h, s, l, a: UNIT_ONE_BITS },
            Color::Hsla { h, s, l, a } => ResolvedColor::HslaUnit { h, s, l, a },
        }
    }

    /// Resolve this color into the runtime-native constructor form.
    pub fn resolve(self) -> (res: ResolvedColor)
        ensures
            res == self.resolve_spec(),
    {
        match self {
            Color::RgbHex(hex) => ResolvedColor::Rgba8 {
                r: ((hex >> 16) & 0xff) as u8,
                g: ((hex >> 8) & 0xff) as u8,
                b: (hex & 0xff) as u8,
                a: 255,
            },
            Color::RgbaHex(hex) => ResolvedColor::Rgba8 {
                r: ((hex >> 24) & 0xff) as u8,
                g: ((hex >> 16) & 0xff) as u8,
                b: ((hex >> 8) & 0xff) as u8,
                a: (hex & 0xff) as u8,
            },
            Color::Rgb { r, g, b } => ResolvedColor::RgbaUnit { r, g, b, a: UNIT_ONE_BITS },
            Color::Rgba { r, g, b, a } => ResolvedColor::RgbaUnit { r, g, b, a },
            Color::Hsl { h, s, l } => ResolvedColor::HslaUnit { h, s, l, a: UNIT_ONE_BITS },
            Color::Hsla { h, s, l, a } => ResolvedColor::HslaUnit { h, s, l, a },
        }
    }
}

/// Promotion law: an RGB triple resolves exactly as the RGBA quadruple made
/// from it with a full-opacity alpha component.
pub proof fn lemma_rgb_promotion(r: u32, g: u32, b: u32)
    ensures
        (Color::Rgb { r, g, b }).resolve_spec() == (Color::Rgba { r, g, b, a: UNIT_ONE_BITS }).resolve_spec(),
{
}

/// Promotion law: an HSL triple resolves exactly as the HSLA quadruple made
/// from it with a full-opacity alpha component.
pub proof fn lemma_hsl_promotion(h: u32, s: u32, l: u32)
    ensures
        (Color::Hsl { h, s, l }).resolve_spec() == (Color::Hsla { h, s, l, a: UNIT_ONE_BITS }).resolve_spec(),
{
}

} // verus!
