//! The numbers that deck state carries: reals and lengths of time.

use vstd::prelude::*;

verus! {

/// A real number, held as the bit pattern of its IEEE 754 binary64 encoding.
///
/// The pattern is stored, compared and forwarded as it is. Arithmetic on reals is
/// left to the caller, who hands it in where a rule asks for it.
#[derive(Clone, Copy, Debug, PartialEq, Eq, Hash, Structural)]
pub struct Real {
    pub bits: u64,
}

/// A length of time in whole nanoseconds.
#[derive(Clone, Copy, Debug, PartialEq, Eq, Hash, Structural)]
pub struct Span {
    pub nanos: u128,
}

impl Real {
    /// The pattern of positive zero.
    pub open spec fn zero_spec() -> Real {
        Real { bits: 0 }
    }

    /// Positive zero.
    #[verifier::when_used_as_spec(zero_spec)]
    pub fn zero() -> (r: Real)
        ensures
            r == Real::zero_spec(),
    {
        Real { bits: 0 }
    }
}

impl Span {
    /// No time at all.
    pub open spec fn zero_spec() -> Span {
        Span { nanos: 0 }
    }

    /// No time at all.
    #[verifier::when_used_as_spec(zero_spec)]
    pub fn zero() -> (r: Span)
        ensures
            r == Span::zero_spec(),
    {
        Span { nanos: 0 }
    }
}

} // verus!
