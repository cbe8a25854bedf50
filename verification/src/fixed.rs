//! Fixed-point fractions stored in a single byte.
use vstd::prelude::*;

verus! {

/// Expresses a `[0,1)` fraction using a `u8`: the value is `numerator / 256`.
#[derive(Debug, Copy, Clone, PartialEq, Eq, Structural)]
pub struct Fracu8 {
    pub numerator: u8,
}

impl Fracu8 {
    /// The fraction `numerator / 256`.
    pub fn of(numerator: u8) -> (r: Fracu8)
        ensures
            r.numerator == numerator,
    {
        Fracu8 { numerator: numerator }
    }
}

/// Expresses a `[-1,1)` fraction using an `i8`: the value is `numerator / 128`.
#[derive(Debug, Copy, Clone, PartialEq, Eq, Structural)]
pub struct Fraci8 {
    pub numerator: i8,
}

impl Fraci8 {
    /// The fraction `numerator / 128`.
    pub fn of(numerator: i8) -> (r: Fraci8)
        ensures
            r.numerator == numerator,
    {
        Fraci8 { numerator: numerator }
    }
}

} // verus!
