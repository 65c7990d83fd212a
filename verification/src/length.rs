//! The sizing vocabulary of the declarative model, and its resolution into
//! the runtime-native sizing representation.
//!
//! As in [`crate::color`], numeric measurements are carried as the IEEE-754
//! bit patterns of 32-bit floating-point numbers: the model passes them
//! through without computing on them.

use vstd::prelude::*;

verus! {

/// A sizing dimension in one of four declarative forms. Exactly one variant
/// is active per value.
#[derive(Clone, Copy, Debug, PartialEq, Eq, Structural)]
pub enum Len {
    /// An absolute measurement in device-independent pixels, as an IEEE-754
    /// bit pattern.
    DefiniteAbsolutePixels(u32),
    /// An absolute measurement in root-relative units, as an IEEE-754 bit
    /// pattern.
    DefiniteAbsoluteRems(u32),
    /// A fraction of the containing dimension, expected in the unit interval
    /// though unchecked, as an IEEE-754 bit pattern.
    DefiniteFraction(u32),
    /// Automatic, intrinsic sizing. The boolean payload is inert: it is
    /// accepted from the producer and ignored by resolution.
    Auto(bool),
}

/// A sizing dimension resolved to one of the runtime's native sizing modes.
#[derive(Clone, Copy, Debug, PartialEq, Eq, Structural)]
pub enum ResolvedLength {
    /// Automatic, intrinsic sizing.
    Auto,
    /// A fraction of the containing dimension, as an IEEE-754 bit pattern.
    Fraction(u32),
    /// Absolute device-independent pixels, as an IEEE-754 bit pattern.
    Pixels(u32),
    /// Absolute root-relative units, as an IEEE-754 bit pattern.
    Rems(u32),
}

impl Len {
    /// What resolution returns for each declarative sizing form: each
    /// definite form passes its measurement through to the native mode of the
    /// same unit, and the automatic form maps to native automatic sizing
    /// whatever its payload.
    pub open spec fn resolve_spec(self) -> ResolvedLength {
        match self {
            Len::Auto(_) => ResolvedLength::Auto,
            Len::DefiniteFraction(frac) => ResolvedLength::Fraction(frac),
            Len::DefiniteAbsolutePixels(px) => ResolvedLength::Pixels(px),
            Len::DefiniteAbsoluteRems(rems) => ResolvedLength::Rems(rems),
        }
    }

    /// Resolve this sizing dimension into the runtime-native sizing mode.
    pub fn resolve(self) -> (res: ResolvedLength)
        ensures
            res == self.resolve_spec(),
    {
        match self {
            Len::Auto(_) => ResolvedLength::Auto,
            Len::DefiniteFraction(frac) => ResolvedLength::Fraction(frac),
            Len::DefiniteAbsolutePixels(px) => ResolvedLength::Pixels(px),
            Len::DefiniteAbsoluteRems(rems) => ResolvedLength::Rems(rems),
        }
    }
}

/// The automatic form's payload is inert: both payloads resolve to the one
/// native automatic sizing mode.
pub proof fn lemma_auto_payload_inert(p: bool, q: bool)
    ensures
        Len::Auto(p).resolve_spec() == Len::Auto(q).resolve_spec(),
        Len::Auto(p).resolve_spec() == ResolvedLength::Auto,
{
}

} // verus!
