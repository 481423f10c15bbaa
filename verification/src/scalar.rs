//! Real numbers as the engine carries them.
//!
//! Coordinates and matrix entries are IEEE 754 single-precision numbers and
//! colour channels are double-precision numbers. The engine stores them as
//! their bit patterns and never rounds: the only values it builds itself are
//! zero, one and the negation of a value it was given, each of which is a
//! fixed operation on the bit pattern. Sums, products, sines and cosines are
//! computed by the embedding program (see [`crate::arithmetic`]).

use vstd::prelude::*;

verus! {

/// The sign bit of a single-precision bit pattern.
pub const SINGLE_SIGN_BIT: u32 = 0x8000_0000;

/// A single-precision number, held as its IEEE 754 bit pattern.
#[derive(Clone, Copy, Debug, PartialEq, Eq, Hash)]
pub struct Single {
    pub bits: u32,
}

impl Single {
    /// Positive zero.
    pub open spec fn spec_zero() -> Single {
        Single { bits: 0 }
    }

    /// One.
    pub open spec fn spec_one() -> Single {
        Single { bits: 0x3F80_0000 }
    }

    /// The number with the opposite sign: the same pattern with the sign bit
    /// flipped, which is what IEEE 754 negation does for every input.
    pub open spec fn spec_neg(self) -> Single {
        Single { bits: self.bits ^ SINGLE_SIGN_BIT }
    }

    #[verifier::when_used_as_spec(spec_zero)]
    pub fn zero() -> (r: Single)
        ensures
            r == Single::spec_zero(),
    {
        Single { bits: 0 }
    }

    #[verifier::when_used_as_spec(spec_one)]
    pub fn one() -> (r: Single)
        ensures
            r == Single::spec_one(),
    {
        Single { bits: 0x3F80_0000 }
    }

    #[verifier::when_used_as_spec(spec_neg)]
    pub fn neg(self) -> (r: Single)
        ensures
            r == self.spec_neg(),
    {
        Single { bits: self.bits ^ SINGLE_SIGN_BIT }
    }

    /// Negating twice gives the number back, bit for bit.
    pub proof fn neg_is_an_involution(x: Single)
        ensures
            x.neg().neg() == x,
    {
        let b = x.bits;
        assert((b ^ 0x8000_0000u32) ^ 0x8000_0000u32 == b) by (bit_vector);
    }

    /// Negation changes every number: no pattern is its own negation.
    pub proof fn neg_changes_the_number(x: Single)
        ensures
            x.neg() != x,
    {
        let b = x.bits;
        assert((b ^ 0x8000_0000u32) != b) by (bit_vector);
    }
}

/// A double-precision number, held as its IEEE 754 bit pattern.
#[derive(Clone, Copy, Debug, PartialEq, Eq, Hash)]
pub struct Double {
    pub bits: u64,
}

impl Double {
    /// One.
    pub open spec fn spec_one() -> Double {
        Double { bits: 0x3FF0_0000_0000_0000 }
    }

    #[verifier::when_used_as_spec(spec_one)]
    pub fn one() -> (r: Double)
        ensures
            r == Double::spec_one(),
    {
        Double { bits: 0x3FF0_0000_0000_0000 }
    }
}

} // verus!
