//! The maximum of two operands, of which at least one is encrypted.
use crate::ciphertext::{lift, Ciphertext};
use crate::error::Error;
use crate::operator::Operator;
use vstd::prelude::*;

verus! {

/// A type whose values have a maximum with the values of `R`.
pub trait Max<R>: Sized {
    /// The type of the maximum.
    type Output;

    /// Whether `output` is the maximum of `self` and `rhs`. A type that says
    /// nothing here promises nothing.
    open spec fn is_max(self, rhs: R, output: Self::Output) -> bool {
        true
    }

    /// The maximum of `self` and `rhs`.
    fn max(self, rhs: R) -> (output: Self::Output)
        ensures
            self.is_max(rhs, output),
    ;
}

/// The maximum of two operands, as the type of the left one computes it.
pub fn max<R, O, L: Max<R, Output = O>>(left: L, right: R) -> (output: O)
    ensures
        left.is_max(right, output),
{
    left.max(right)
}

impl<'a> Max<&'a Ciphertext> for &'a Ciphertext {
    type Output = Result<Ciphertext, Error>;

    /// The output is the larger of the two ciphertexts.
    open spec fn is_max(self, rhs: &'a Ciphertext, output: Result<Ciphertext, Error>) -> bool {
        lift(output) == self@.key.applied(Operator::Max, self@, rhs@)
    }

    fn max(self, rhs: &'a Ciphertext) -> (output: Result<Ciphertext, Error>) {
        Ciphertext::max(self, rhs)
    }
}

impl<'a> Max<usize> for &'a Ciphertext {
    type Output = Result<Ciphertext, Error>;

    /// The output is the larger of the ciphertext and the residue of the
    /// constant.
    open spec fn is_max(self, rhs: usize, output: Result<Ciphertext, Error>) -> bool {
        lift(output) == self@.key.applied(Operator::MaxConstant(rhs as u64), self@, self@)
    }

    fn max(self, rhs: usize) -> (output: Result<Ciphertext, Error>) {
        self.max_constant(rhs)
    }
}

impl<'a> Max<&'a Ciphertext> for usize {
    type Output = Result<Ciphertext, Error>;

    /// The output is the larger of the residue of the constant and the
    /// ciphertext.
    open spec fn is_max(self, rhs: &'a Ciphertext, output: Result<Ciphertext, Error>) -> bool {
        lift(output) == rhs@.key.applied(Operator::MaxConstant(self as u64), rhs@, rhs@)
    }

    fn max(self, rhs: &'a Ciphertext) -> (output: Result<Ciphertext, Error>) {
        rhs.max_constant(self)
    }
}

} // verus!
