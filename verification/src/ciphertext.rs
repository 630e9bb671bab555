//! The encrypted values.
use crate::error::Error;
use crate::homomorphic_key::HomomorphicKey;
use crate::operator::Operator;
use vstd::pervasive::unreached;
use vstd::prelude::*;

verus! {

/// What a ciphertext stands for: the integer that it decrypts to and the
/// evaluation key under which it was made.
pub struct Plain {
    /// The plaintext.
    pub value: int,
    /// The evaluation key of the key set.
    pub key: HomomorphicKey,
}

impl Plain {
    /// The key describes a domain and the plaintext lies in it.
    pub open spec fn wf(self) -> bool {
        self.key.wf() && 0 <= self.value < self.key.modulo()
    }
}

/// An encrypted integer of `[0, q)` together with the evaluation key of its
/// key set. The payload is kept as a scheme without noise would keep it: it
/// is the plaintext.
#[derive(Clone, Copy, Debug, PartialEq, Eq, Structural)]
pub struct Ciphertext {
    pub(crate) ciphertext: u64,
    pub(crate) evaluation_key: HomomorphicKey,
}

impl View for Ciphertext {
    type V = Plain;

    closed spec fn view(&self) -> Plain {
        Plain { value: self.ciphertext as int, key: self.evaluation_key }
    }
}

/// The outcome of an operator on what ciphertexts stand for.
pub open spec fn lift(r: Result<Ciphertext, Error>) -> Result<Plain, Error> {
    match r {
        Ok(ciphertext) => Ok(ciphertext@),
        Err(error) => Err(error),
    }
}

/// What stands for the image of a ciphertext under a function, given the
/// integer that the function returns on the plaintext.
pub open spec fn evaluated(ciphertext: Plain, image: int) -> Plain {
    Plain { value: image % ciphertext.key.modulo(), key: ciphertext.key }
}

impl Ciphertext {
    /// The plaintext of every ciphertext lies in the domain of its key.
    #[verifier::type_invariant]
    pub closed spec fn wf(&self) -> bool {
        self@.wf()
    }

    /// A ciphertext of `value` under `key`.
    pub(crate) fn fresh(value: u64, key: HomomorphicKey) -> (r: Ciphertext)
        requires
            value < key.modulo(),
        ensures
            r@ == (Plain { value: value as int, key }),
    {
        proof {
            use_type_invariant(&key.encoder);
        }
        Ciphertext { ciphertext: value, evaluation_key: key }
    }

    /// The payload.
    pub(crate) fn payload(&self) -> (r: u64)
        ensures
            r == self@.value,
            self@.wf(),
    {
        proof {
            use_type_invariant(self);
        }
        self.ciphertext
    }

    /// The evaluation key of the key set under which the ciphertext was
    /// made.
    pub fn evaluation_key(&self) -> (r: HomomorphicKey)
        ensures
            r == self@.key,
            self@.wf(),
    {
        proof {
            use_type_invariant(self);
        }
        self.evaluation_key
    }

    /// The sum of this ciphertext and another, modulo `q`.
    pub fn add(&self, other: &Ciphertext) -> (r: Result<Ciphertext, Error>)
        ensures
            lift(r) == self@.key.applied(Operator::Add, self@, other@),
    {
        let key: HomomorphicKey = self.evaluation_key();
        key.apply(Operator::Add, self, other)
    }

    /// Puts into this ciphertext what [`Self::add`] returns, and leaves it as
    /// it was where that fails.
    pub fn add_assign(&mut self, other: &Ciphertext) -> (r: Result<(), Error>)
        ensures
            (final(self)@, r) == old(self)@.key.applied_in_place(
                Operator::Add,
                old(self)@,
                other@,
            ),
    {
        match self.add(other) {
            Ok(result) => {
                *self = result;
                Ok(())
            },
            Err(error) => Err(error),
        }
    }

    /// The difference of this ciphertext and another, modulo `q`.
    pub fn sub(&self, other: &Ciphertext) -> (r: Result<Ciphertext, Error>)
        ensures
            lift(r) == self@.key.applied(Operator::Sub, self@, other@),
    {
        let key: HomomorphicKey = self.evaluation_key();
        key.apply(Operator::Sub, self, other)
    }

    /// Puts into this ciphertext what [`Self::sub`] returns, and leaves it as
    /// it was where that fails.
    pub fn sub_assign(&mut self, other: &Ciphertext) -> (r: Result<(), Error>)
        ensures
            (final(self)@, r) == old(self)@.key.applied_in_place(
                Operator::Sub,
                old(self)@,
                other@,
            ),
    {
        match self.sub(other) {
            Ok(result) => {
                *self = result;
                Ok(())
            },
            Err(error) => Err(error),
        }
    }

    /// The product of this ciphertext and another, modulo `q`.
    pub fn mul(&self, other: &Ciphertext) -> (r: Result<Ciphertext, Error>)
        ensures
            lift(r) == self@.key.applied(Operator::Mul, self@, other@),
    {
        let key: HomomorphicKey = self.evaluation_key();
        key.apply(Operator::Mul, self, other)
    }

    /// Puts into this ciphertext what [`Self::mul`] returns, and leaves it as
    /// it was where that fails.
    pub fn mul_assign(&mut self, other: &Ciphertext) -> (r: Result<(), Error>)
        ensures
            (final(self)@, r) == old(self)@.key.applied_in_place(
                Operator::Mul,
                old(self)@,
                other@,
            ),
    {
        match self.mul(other) {
            Ok(result) => {
                *self = result;
                Ok(())
            },
            Err(error) => Err(error),
        }
    }

    /// The sum of this ciphertext and a constant, modulo `q`.
    pub fn add_constant(&self, other: usize) -> (r: Result<Ciphertext, Error>)
        ensures
            lift(r) == self@.key.applied(Operator::AddConstant(other as u64), self@, self@),
    {
        let key: HomomorphicKey = self.evaluation_key();
        key.apply(Operator::AddConstant(other as u64), self, self)
    }

    /// Puts into this ciphertext what [`Self::add_constant`] returns, and
    /// leaves it as it was where that fails.
    pub fn add_constant_assign(&mut self, other: usize) -> (r: Result<(), Error>)
        ensures
            (final(self)@, r) == old(self)@.key.applied_in_place(
                Operator::AddConstant(other as u64),
                old(self)@,
                old(self)@,
            ),
    {
        match self.add_constant(other) {
            Ok(result) => {
                *self = result;
                Ok(())
            },
            Err(error) => Err(error),
        }
    }

    /// The difference of this ciphertext and a constant, modulo `q`.
    pub fn sub_constant(&self, other: usize) -> (r: Result<Ciphertext, Error>)
        ensures
            lift(r) == self@.key.applied(Operator::SubConstant(other as u64), self@, self@),
    {
        let key: HomomorphicKey = self.evaluation_key();
        key.apply(Operator::SubConstant(other as u64), self, self)
    }

    /// Puts into this ciphertext what [`Self::sub_constant`] returns, and
    /// leaves it as it was where that fails.
    pub fn sub_constant_assign(&mut self, other: usize) -> (r: Result<(), Error>)
        ensures
            (final(self)@, r) == old(self)@.key.applied_in_place(
                Operator::SubConstant(other as u64),
                old(self)@,
                old(self)@,
            ),
    {
        match self.sub_constant(other) {
            Ok(result) => {
                *self = result;
                Ok(())
            },
            Err(error) => Err(error),
        }
    }

    /// The product of this ciphertext and a constant, modulo `q`.
    pub fn mul_constant(&self, other: usize) -> (r: Result<Ciphertext, Error>)
        ensures
            lift(r) == self@.key.applied(Operator::MulConstant(other as u64), self@, self@),
    {
        let key: HomomorphicKey = self.evaluation_key();
        key.apply(Operator::MulConstant(other as u64), self, self)
    }

    /// Puts into this ciphertext what [`Self::mul_constant`] returns, and
    /// leaves it as it was where that fails.
    pub fn mul_constant_assign(&mut self, other: usize) -> (r: Result<(), Error>)
        ensures
            (final(self)@, r) == old(self)@.key.applied_in_place(
                Operator::MulConstant(other as u64),
                old(self)@,
                old(self)@,
            ),
    {
        match self.mul_constant(other) {
            Ok(result) => {
                *self = result;
                Ok(())
            },
            Err(error) => Err(error),
        }
    }

    /// The larger of this ciphertext and another.
    pub fn max(&self, other: &Ciphertext) -> (r: Result<Ciphertext, Error>)
        ensures
            lift(r) == self@.key.applied(Operator::Max, self@, other@),
    {
        let key: HomomorphicKey = self.evaluation_key();
        key.apply(Operator::Max, self, other)
    }

    /// The larger of this ciphertext and the residue of a constant.
    pub fn max_constant(&self, other: usize) -> (r: Result<Ciphertext, Error>)
        ensures
            lift(r) == self@.key.applied(Operator::MaxConstant(other as u64), self@, self@),
    {
        let key: HomomorphicKey = self.evaluation_key();
        key.apply(Operator::MaxConstant(other as u64), self, self)
    }

    /// The image of this ciphertext under a function of the integers, folded
    /// into `[0, q)`, by one bootstrap.
    pub fn eval<F: Fn(u64) -> i64>(&self, f: F) -> (r: Ciphertext)
        requires
            forall|x: u64| x < self@.key.modulo() ==> call_requires(f, (x,)),
        ensures
            exists|y: i64|
                call_ensures(f, (self@.value as u64,), y) && r@ == evaluated(self@, y as int),
    {
        let key: HomomorphicKey = self.evaluation_key();
        match key.f(self, f) {
            Ok(result) => result,
            Err(_) => unreached(),
        }
    }
}

} // verus!
