//! The rounding arithmetic that the embedding program supplies.
//!
//! The engine decides which numbers are added and multiplied, and in which
//! order; it does not round. An [`Arithmetic`] bundles the four operations it
//! needs as functions on [`Single`] values. Nothing is assumed of them but
//! that they accept every input: each contract that depends on them says that
//! the result is one that the supplied function could return.

use vstd::prelude::*;
use crate::scalar::Single;

verus! {

/// Addition, multiplication, cosine and sine on single-precision numbers.
pub struct Arithmetic<
    A: Fn(Single, Single) -> Single,
    M: Fn(Single, Single) -> Single,
    C: Fn(Single) -> Single,
    S: Fn(Single) -> Single,
> {
    add: A,
    mul: M,
    cos: C,
    sin: S,
}

impl<
    A: Fn(Single, Single) -> Single,
    M: Fn(Single, Single) -> Single,
    C: Fn(Single) -> Single,
    S: Fn(Single) -> Single,
> Arithmetic<A, M, C, S> {
    /// Every operation accepts every input.
    #[verifier::type_invariant]
    spec fn total(&self) -> bool {
        &&& forall|a: Single, b: Single| #[trigger] call_requires(self.add, (a, b))
        &&& forall|a: Single, b: Single| #[trigger] call_requires(self.mul, (a, b))
        &&& forall|a: Single| #[trigger] call_requires(self.cos, (a,))
        &&& forall|a: Single| #[trigger] call_requires(self.sin, (a,))
    }

    /// `r` is a value that adding `a` and `b` can give.
    pub closed spec fn adds(&self, a: Single, b: Single, r: Single) -> bool {
        call_ensures(self.add, (a, b), r)
    }

    /// `r` is a value that multiplying `a` by `b` can give.
    pub closed spec fn multiplies(&self, a: Single, b: Single, r: Single) -> bool {
        call_ensures(self.mul, (a, b), r)
    }

    /// `r` is a value that the cosine of `a` can give.
    pub closed spec fn cosine(&self, a: Single, r: Single) -> bool {
        call_ensures(self.cos, (a,), r)
    }

    /// `r` is a value that the sine of `a` can give.
    pub closed spec fn sine(&self, a: Single, r: Single) -> bool {
        call_ensures(self.sin, (a,), r)
    }

    /// Sums and products are functions of their operands: the same operands
    /// never give two different results.
    pub open spec fn is_deterministic(&self) -> bool {
        &&& forall|a: Single, b: Single, r1: Single, r2: Single|
            #![trigger self.adds(a, b, r1), self.adds(a, b, r2)]
            self.adds(a, b, r1) && self.adds(a, b, r2) ==> r1 == r2
        &&& forall|a: Single, b: Single, r1: Single, r2: Single|
            #![trigger self.multiplies(a, b, r1), self.multiplies(a, b, r2)]
            self.multiplies(a, b, r1) && self.multiplies(a, b, r2) ==> r1 == r2
    }

    /// Zero and one behave towards `x` as they do in exact arithmetic: a
    /// product with one is `x`, a product with zero is zero, a sum with zero
    /// is `x`. IEEE 754 arithmetic is exact in this sense on every finite
    /// number that is not negative.
    pub open spec fn is_exact_on(&self, x: Single) -> bool {
        &&& forall|r: Single| #[trigger] self.multiplies(Single::one(), x, r) ==> r == x
        &&& forall|r: Single| #[trigger] self.multiplies(x, Single::one(), r) ==> r == x
        &&& forall|r: Single|
            #[trigger] self.multiplies(Single::zero(), x, r) ==> r == Single::zero()
        &&& forall|r: Single|
            #[trigger] self.multiplies(x, Single::zero(), r) ==> r == Single::zero()
        &&& forall|r: Single| #[trigger] self.adds(Single::zero(), x, r) ==> r == x
        &&& forall|r: Single| #[trigger] self.adds(x, Single::zero(), r) ==> r == x
    }

    /// Bundles four operations. Each must accept every input.
    pub fn new(add: A, mul: M, cos: C, sin: S) -> (arithmetic: Self)
        requires
            forall|a: Single, b: Single| #[trigger] call_requires(add, (a, b)),
            forall|a: Single, b: Single| #[trigger] call_requires(mul, (a, b)),
            forall|a: Single| #[trigger] call_requires(cos, (a,)),
            forall|a: Single| #[trigger] call_requires(sin, (a,)),
        ensures
            forall|a: Single, b: Single, r: Single| #[trigger]
                arithmetic.adds(a, b, r) <==> call_ensures(add, (a, b), r),
            forall|a: Single, b: Single, r: Single| #[trigger]
                arithmetic.multiplies(a, b, r) <==> call_ensures(mul, (a, b), r),
            forall|a: Single, r: Single| #[trigger]
                arithmetic.cosine(a, r) <==> call_ensures(cos, (a,), r),
            forall|a: Single, r: Single| #[trigger]
                arithmetic.sine(a, r) <==> call_ensures(sin, (a,), r),
    {
        Arithmetic { add, mul, cos, sin }
    }

    /// The sum of `a` and `b`, rounded by the supplied addition.
    pub fn add(&self, a: Single, b: Single) -> (r: Single)
        ensures
            self.adds(a, b, r),
    {
        proof {
            use_type_invariant(self);
        }
        (self.add)(a, b)
    }

    /// The product of `a` and `b`, rounded by the supplied multiplication.
    pub fn mul(&self, a: Single, b: Single) -> (r: Single)
        ensures
            self.multiplies(a, b, r),
    {
        proof {
            use_type_invariant(self);
        }
        (self.mul)(a, b)
    }

    /// The cosine of `a`, as the supplied function computes it.
    pub fn cos(&self, a: Single) -> (r: Single)
        ensures
            self.cosine(a, r),
    {
        proof {
            use_type_invariant(self);
        }
        (self.cos)(a)
    }

    /// The sine of `a`, as the supplied function computes it.
    pub fn sin(&self, a: Single) -> (r: Single)
        ensures
            self.sine(a, r),
    {
        proof {
            use_type_invariant(self);
        }
        (self.sin)(a)
    }
}

} // verus!
