//! The transform register: the one transform that queued geometry is drawn
//! under.
//!
//! The register always holds exactly one matrix. It can be reset to the
//! identity, and an operation can be composed onto it; there is no stack of
//! saved frames.

use vstd::prelude::*;
use crate::arithmetic::Arithmetic;
use crate::matrix::Matrix4;
use crate::scalar::Single;

verus! {

/// The current transform.
pub struct TransformRegister {
    current: Matrix4,
}

impl View for TransformRegister {
    type V = Matrix4;

    closed spec fn view(&self) -> Matrix4 {
        self.current
    }
}

impl TransformRegister {
    /// A register that holds the identity.
    pub fn new() -> (register: TransformRegister)
        ensures
            register@ == Matrix4::identity(),
    {
        TransformRegister { current: Matrix4::identity() }
    }

    /// The matrix in the register.
    pub fn current(&self) -> (matrix: Matrix4)
        ensures
            matrix == self@,
    {
        self.current
    }

    /// Puts the identity in the register, whatever it held.
    pub fn reset(&mut self)
        ensures
            final(self)@ == Matrix4::identity(),
    {
        self.current = Matrix4::identity();
    }

    /// Replaces the register's matrix by `current × op`: the operation is
    /// applied in the frame that the register already describes, so a
    /// rotation composed after a translation turns about the translated
    /// origin.
    pub fn compose<
        A: Fn(Single, Single) -> Single,
        M: Fn(Single, Single) -> Single,
        C: Fn(Single) -> Single,
        S: Fn(Single) -> Single,
    >(&mut self, op: &Matrix4, arithmetic: &Arithmetic<A, M, C, S>)
        ensures
            arithmetic.is_product(old(self)@, *op, final(self)@),
    {
        let product = self.current.mul(op, arithmetic);
        self.current = product;
    }
}

} // verus!
