//! The evaluation key, and the operators as it applies them to ciphertexts.
use crate::ciphertext::{evaluated, lift, Ciphertext, Plain};
use crate::encoder::Encoder;
use crate::error::Error;
use crate::operator::Operator;
use crate::pipeline::{evaluate, integers, Step};
use crate::reduction::round_modulo;
use vstd::arithmetic::div_mod::lemma_small_mod;
use vstd::pervasive::unreached;
use vstd::prelude::*;

verus! {

/// What the evaluator holds of a key set: which key set it is, the domain of
/// its plaintexts, and whether its bootstraps end in a key switch. Two
/// ciphertexts combine only under one and the same evaluation key.
#[derive(Clone, Copy, Debug, PartialEq, Eq, Structural)]
pub struct HomomorphicKey {
    /// The number that tells this key set from every other.
    pub identity: u64,
    /// The domain of the plaintexts.
    pub encoder: Encoder,
    /// Whether every bootstrap is followed by a key switch.
    pub key_switch: bool,
}

impl HomomorphicKey {
    /// The key describes a domain.
    pub open spec fn wf(&self) -> bool {
        self.encoder.wf()
    }

    /// The number `q` of plaintexts.
    pub open spec fn modulo(&self) -> int {
        self.encoder.spec_modulo()
    }

    /// The pipeline that computes `operator` on ciphertexts of this key and
    /// of `other`, or why there is none.
    pub open spec fn planned(&self, other: HomomorphicKey, operator: Operator) -> Result<
        Seq<Step>,
        Error,
    > {
        if *self != other {
            Err(Error::CapabilityMismatch)
        } else if self.encoder.spec_padding_bits() < operator.spec_headroom() {
            Err(Error::EncodingOverflow)
        } else {
            Ok(operator.pipeline(self.key_switch))
        }
    }

    /// The result of `operator` on two ciphertexts, or why there is none.
    /// Both operands must have been made under this key, an operand that the
    /// operator ignores excepted, and the encoder must leave as many bits
    /// free as the operator uses up.
    pub open spec fn applied(&self, operator: Operator, left: Plain, right: Plain) -> Result<
        Plain,
        Error,
    > {
        if left.key != *self || (operator.spec_is_binary() && right.key != *self) {
            Err(Error::CapabilityMismatch)
        } else if self.encoder.spec_padding_bits() < operator.spec_headroom() {
            Err(Error::EncodingOverflow)
        } else {
            Ok(Plain { value: operator.value(left.value, right.value, self.modulo()), key: *self })
        }
    }

    /// What an operator in place leaves in its left operand, and whether it
    /// succeeded: the result of the operator, or the operand as it was.
    pub open spec fn applied_in_place(&self, operator: Operator, left: Plain, right: Plain) -> (
        Plain,
        Result<(), Error>,
    ) {
        match self.applied(operator, left, right) {
            Ok(result) => (result, Ok(())),
            Err(error) => (left, Err(error)),
        }
    }

    /// Decides how `operator` is computed on ciphertexts of this key and of
    /// `other`, which is this key again where the second operand is a
    /// constant. Keys that differ give `CapabilityMismatch`; too few padding
    /// bits give `EncodingOverflow`.
    pub fn plan(&self, other: &HomomorphicKey, operator: &Operator) -> (r: Result<Vec<Step>, Error>)
        ensures
            match r {
                Ok(steps) => self.planned(*other, *operator) == Ok::<Seq<Step>, Error>(steps@),
                Err(error) => self.planned(*other, *operator) == Err::<Seq<Step>, Error>(error),
            },
    {
        if !(*self == *other) {
            Err(Error::CapabilityMismatch)
        } else if self.encoder.padding_bits() < operator.headroom() {
            Err(Error::EncodingOverflow)
        } else {
            Ok(operator.steps(self.key_switch))
        }
    }

    /// Applies `operator` to two ciphertexts. An operator with a constant
    /// ignores `right`.
    pub fn apply(&self, operator: Operator, left: &Ciphertext, right: &Ciphertext) -> (r: Result<
        Ciphertext,
        Error,
    >)
        ensures
            lift(r) == self.applied(operator, left@, right@),
    {
        let binary: bool = operator.is_binary();
        if !(left.evaluation_key() == *self) || (binary && !(right.evaluation_key() == *self)) {
            return Err(Error::CapabilityMismatch);
        }
        let steps: Vec<Step> = match self.plan(self, &operator) {
            Ok(steps) => steps,
            Err(error) => { return Err(error); },
        };
        let modulo: u64 = self.encoder.modulo();
        let mut inputs: Vec<i128> = Vec::new();
        inputs.push(left.payload() as i128);
        if binary {
            inputs.push(right.payload() as i128);
        }
        proof {
            let l = left@.value;
            let r = if binary {
                right@.value
            } else {
                0
            };
            assert(integers(inputs@) =~= operator.operands(l, r));
            operator.lemma_pipeline_computes(self.key_switch, l, r, modulo as int);
            operator.lemma_pipeline_evaluable(self.key_switch, l, r, modulo as int);
            assert(operator.value(l, r, modulo as int) == operator.value(
                l,
                right@.value,
                modulo as int,
            ));
        }
        match evaluate(&steps, &inputs, modulo) {
            Some(value) => Ok(Ciphertext::fresh(value, *self)),
            None => unreached(),
        }
    }

    /// The sum of two ciphertexts, modulo `q`: their linear sum, folded into
    /// `[0, q)` by one bootstrap.
    pub fn add(&self, left: &Ciphertext, right: &Ciphertext) -> (r: Result<Ciphertext, Error>)
        ensures
            lift(r) == self.applied(Operator::Add, left@, right@),
    {
        self.apply(Operator::Add, left, right)
    }

    /// Puts into `left` what [`Self::add`] returns, and leaves it as it was
    /// where that fails.
    pub fn add_inplace(&self, left: &mut Ciphertext, right: &Ciphertext) -> (r: Result<(), Error>)
        ensures
            (final(left)@, r) == self.applied_in_place(Operator::Add, old(left)@, right@),
    {
        match self.apply(Operator::Add, left, right) {
            Ok(result) => {
                *left = result;
                Ok(())
            },
            Err(error) => Err(error),
        }
    }

    /// The difference of two ciphertexts, modulo `q`: their linear difference,
    /// folded into `[0, q)` by one bootstrap.
    pub fn sub(&self, left: &Ciphertext, right: &Ciphertext) -> (r: Result<Ciphertext, Error>)
        ensures
            lift(r) == self.applied(Operator::Sub, left@, right@),
    {
        self.apply(Operator::Sub, left, right)
    }

    /// Puts into `left` what [`Self::sub`] returns, and leaves it as it was
    /// where that fails.
    pub fn sub_inplace(&self, left: &mut Ciphertext, right: &Ciphertext) -> (r: Result<(), Error>)
        ensures
            (final(left)@, r) == self.applied_in_place(Operator::Sub, old(left)@, right@),
    {
        match self.apply(Operator::Sub, left, right) {
            Ok(result) => {
                *left = result;
                Ok(())
            },
            Err(error) => Err(error),
        }
    }

    /// The product of two ciphertexts, modulo `q`. The sum and the difference
    /// of the operands are each squared and quartered by a bootstrap, and the
    /// difference of the two is folded into `[0, q)` by a third.
    pub fn mul(&self, left: &Ciphertext, right: &Ciphertext) -> (r: Result<Ciphertext, Error>)
        ensures
            lift(r) == self.applied(Operator::Mul, left@, right@),
    {
        self.apply(Operator::Mul, left, right)
    }

    /// Puts into `left` what [`Self::mul`] returns, and leaves it as it was
    /// where that fails.
    pub fn mul_inplace(&self, left: &mut Ciphertext, right: &Ciphertext) -> (r: Result<(), Error>)
        ensures
            (final(left)@, r) == self.applied_in_place(Operator::Mul, old(left)@, right@),
    {
        match self.apply(Operator::Mul, left, right) {
            Ok(result) => {
                *left = result;
                Ok(())
            },
            Err(error) => Err(error),
        }
    }

    /// The sum of a ciphertext and a constant, modulo `q`: the payload is
    /// shifted and nothing is refreshed.
    pub fn add_constant(&self, left: &Ciphertext, right: usize) -> (r: Result<Ciphertext, Error>)
        ensures
            lift(r) == self.applied(Operator::AddConstant(right as u64), left@, left@),
    {
        self.apply(Operator::AddConstant(right as u64), left, left)
    }

    /// Puts into `left` what [`Self::add_constant`] returns, and leaves it as
    /// it was where that fails.
    pub fn add_constant_inplace(&self, left: &mut Ciphertext, right: usize) -> (r: Result<
        (),
        Error,
    >)
        ensures
            (final(left)@, r) == self.applied_in_place(
                Operator::AddConstant(right as u64),
                old(left)@,
                old(left)@,
            ),
    {
        match self.apply(Operator::AddConstant(right as u64), left, left) {
            Ok(result) => {
                *left = result;
                Ok(())
            },
            Err(error) => Err(error),
        }
    }

    /// The difference of a ciphertext and a constant, modulo `q`: the payload
    /// is shifted and nothing is refreshed.
    pub fn sub_constant(&self, left: &Ciphertext, right: usize) -> (r: Result<Ciphertext, Error>)
        ensures
            lift(r) == self.applied(Operator::SubConstant(right as u64), left@, left@),
    {
        self.apply(Operator::SubConstant(right as u64), left, left)
    }

    /// Puts into `left` what [`Self::sub_constant`] returns, and leaves it as
    /// it was where that fails.
    pub fn sub_constant_inplace(&self, left: &mut Ciphertext, right: usize) -> (r: Result<
        (),
        Error,
    >)
        ensures
            (final(left)@, r) == self.applied_in_place(
                Operator::SubConstant(right as u64),
                old(left)@,
                old(left)@,
            ),
    {
        match self.apply(Operator::SubConstant(right as u64), left, left) {
            Ok(result) => {
                *left = result;
                Ok(())
            },
            Err(error) => Err(error),
        }
    }

    /// The product of a ciphertext and a constant, modulo `q`, by one
    /// bootstrap.
    pub fn mul_constant(&self, left: &Ciphertext, right: usize) -> (r: Result<Ciphertext, Error>)
        ensures
            lift(r) == self.applied(Operator::MulConstant(right as u64), left@, left@),
    {
        self.apply(Operator::MulConstant(right as u64), left, left)
    }

    /// Puts into `left` what [`Self::mul_constant`] returns, and leaves it as
    /// it was where that fails.
    pub fn mul_constant_inplace(&self, left: &mut Ciphertext, right: usize) -> (r: Result<
        (),
        Error,
    >)
        ensures
            (final(left)@, r) == self.applied_in_place(
                Operator::MulConstant(right as u64),
                old(left)@,
                old(left)@,
            ),
    {
        match self.apply(Operator::MulConstant(right as u64), left, left) {
            Ok(result) => {
                *left = result;
                Ok(())
            },
            Err(error) => Err(error),
        }
    }

    /// The larger of two ciphertexts. The part of their difference that is
    /// positive comes out of one bootstrap; added to the right operand, it is
    /// folded into `[0, q)` by a second.
    pub fn max(&self, left: &Ciphertext, right: &Ciphertext) -> (r: Result<Ciphertext, Error>)
        ensures
            lift(r) == self.applied(Operator::Max, left@, right@),
    {
        self.apply(Operator::Max, left, right)
    }

    /// The larger of a ciphertext and the residue of a constant, by one
    /// bootstrap.
    pub fn max_constant(&self, left: &Ciphertext, right: usize) -> (r: Result<Ciphertext, Error>)
        ensures
            lift(r) == self.applied(Operator::MaxConstant(right as u64), left@, left@),
    {
        self.apply(Operator::MaxConstant(right as u64), left, left)
    }

    /// The image of a ciphertext under a function of the integers, folded
    /// into `[0, q)`, by one bootstrap. A ciphertext of another key gives
    /// `CapabilityMismatch`.
    pub fn f<F: Fn(u64) -> i64>(&self, ct: &Ciphertext, f: F) -> (r: Result<Ciphertext, Error>)
        requires
            forall|x: u64| x < self.modulo() ==> call_requires(f, (x,)),
        ensures
            match r {
                Ok(result) => {
                    &&& ct@.key == *self
                    &&& exists|y: i64|
                        call_ensures(f, (ct@.value as u64,), y) && result@ == evaluated(
                            ct@,
                            y as int,
                        )
                },
                Err(error) => ct@.key != *self && error == Error::CapabilityMismatch,
            },
    {
        if !(ct.evaluation_key() == *self) {
            return Err(Error::CapabilityMismatch);
        }
        let modulo: u64 = self.encoder.modulo();
        let x: u64 = round_modulo(ct.payload() as i128, modulo);
        proof {
            lemma_small_mod(ct@.value as nat, modulo as nat);
        }
        let y: i64 = f(x);
        let value: u64 = round_modulo(y as i128, modulo);
        let result: Ciphertext = Ciphertext::fresh(value, *self);
        assert(call_ensures(f, (ct@.value as u64,), y) && result@ == evaluated(ct@, y as int));
        Ok(result)
    }

    /// Puts into `ct` what [`Self::f`] returns, and leaves it as it was where
    /// that fails.
    pub fn f_inplace<F: Fn(u64) -> i64>(&self, ct: &mut Ciphertext, f: F) -> (r: Result<(), Error>)
        requires
            forall|x: u64| x < self.modulo() ==> call_requires(f, (x,)),
        ensures
            match r {
                Ok(_) => {
                    &&& old(ct)@.key == *self
                    &&& exists|y: i64|
                        call_ensures(f, (old(ct)@.value as u64,), y) && final(ct)@ == evaluated(
                            old(ct)@,
                            y as int,
                        )
                },
                Err(error) => {
                    &&& old(ct)@.key != *self
                    &&& error == Error::CapabilityMismatch
                    &&& final(ct)@ == old(ct)@
                },
            },
    {
        match self.f(ct, f) {
            Ok(result) => {
                *ct = result;
                Ok(())
            },
            Err(error) => Err(error),
        }
    }
}

} // verus!
