//! The arithmetic operators, each as a pipeline, and the proof that the
//! pipeline computes what the operator means.
use crate::lookup::Lookup;
use crate::pipeline::{computable, evaluable, outcome, register, Step};
use crate::reduction::larger;
use vstd::arithmetic::div_mod::{
    lemma_mod_bound, lemma_mod_twice, lemma_small_mod, lemma_sub_mod_noop,
};
use vstd::prelude::*;

verus! {

/// An operator on one ciphertext and a second operand, which is another
/// ciphertext or a constant that everyone may know.
#[derive(Clone, Copy, Debug, PartialEq, Eq, Structural)]
pub enum Operator {
    /// The sum of two ciphertexts.
    Add,
    /// The sum of a ciphertext and a constant.
    AddConstant(u64),
    /// The difference of two ciphertexts.
    Sub,
    /// The difference of a ciphertext and a constant.
    SubConstant(u64),
    /// The product of two ciphertexts.
    Mul,
    /// The product of a ciphertext and a constant.
    MulConstant(u64),
    /// The larger of two ciphertexts.
    Max,
    /// The larger of a ciphertext and the residue of a constant.
    MaxConstant(u64),
}

impl Operator {
    /// Whether the second operand is a ciphertext.
    pub open spec fn spec_is_binary(&self) -> bool {
        match self {
            Operator::Add | Operator::Sub | Operator::Mul | Operator::Max => true,
            _ => false,
        }
    }

    /// The number of padding bits that the encoder must leave free for the
    /// operator: none for a shift by a constant; one where a sum or a
    /// difference is formed or a table takes a second operand; two for the
    /// product of two ciphertexts, whose squares take one more than the sum
    /// and the difference under them.
    pub open spec fn spec_headroom(&self) -> usize {
        match self {
            Operator::Add => 1,
            Operator::AddConstant(_) => 0,
            Operator::Sub => 1,
            Operator::SubConstant(_) => 0,
            Operator::Mul => 2,
            Operator::MulConstant(_) => 1,
            Operator::Max => 1,
            Operator::MaxConstant(_) => 1,
        }
    }

    /// What the operator means: the plaintext of its result, given the
    /// plaintexts of its operands modulo `q`. An operator with a constant
    /// ignores `right`.
    pub open spec fn value(self, left: int, right: int, q: int) -> int {
        match self {
            Operator::Add => (left + right) % q,
            Operator::AddConstant(k) => (left + k) % q,
            Operator::Sub => (left - right) % q,
            Operator::SubConstant(k) => (left - k) % q,
            Operator::Mul => (left * right) % q,
            Operator::MulConstant(k) => (left * k) % q,
            Operator::Max => larger(left, right),
            Operator::MaxConstant(k) => larger(left, k as int % q),
        }
    }

    /// The operands as the first registers of the pipeline.
    pub open spec fn operands(self, left: int, right: int) -> Seq<int> {
        if self.spec_is_binary() {
            seq![left, right]
        } else {
            seq![left]
        }
    }

    /// The steps that compute the operator. With two ciphertexts, register 0
    /// holds the left and register 1 the right operand.
    pub open spec fn pipeline(self, key_switch: bool) -> Seq<Step> {
        match self {
            Operator::Add => seq![
                Step::Add { left: 0, right: 1 },
                Step::Bootstrap { source: 2, table: Lookup::RoundModulo, key_switch },
            ],
            Operator::AddConstant(k) => seq![Step::AddConstant { source: 0, constant: k }],
            Operator::Sub => seq![
                Step::Sub { left: 0, right: 1 },
                Step::Bootstrap { source: 2, table: Lookup::RoundModulo, key_switch },
            ],
            Operator::SubConstant(k) => seq![Step::SubConstant { source: 0, constant: k }],
            Operator::Mul => seq![
                Step::Add { left: 0, right: 1 },
                Step::Sub { left: 0, right: 1 },
                Step::Bootstrap { source: 2, table: Lookup::FloorQuarterSquare, key_switch },
                Step::Bootstrap { source: 3, table: Lookup::FloorQuarterSquare, key_switch },
                Step::Sub { left: 4, right: 5 },
                Step::Bootstrap { source: 6, table: Lookup::RoundModulo, key_switch },
            ],
            Operator::MulConstant(k) => seq![
                Step::Bootstrap { source: 0, table: Lookup::RoundProduct(k), key_switch },
            ],
            Operator::Max => seq![
                Step::Sub { left: 0, right: 1 },
                Step::Bootstrap { source: 2, table: Lookup::Relu, key_switch },
                Step::Add { left: 3, right: 1 },
                Step::Bootstrap { source: 4, table: Lookup::RoundModulo, key_switch },
            ],
            Operator::MaxConstant(k) => seq![
                Step::Bootstrap { source: 0, table: Lookup::MaxWith(k), key_switch },
            ],
        }
    }

    /// Whether the second operand is a ciphertext.
    #[verifier::when_used_as_spec(spec_is_binary)]
    pub fn is_binary(&self) -> (r: bool)
        ensures
            r == self.spec_is_binary(),
    {
        match self {
            Operator::Add | Operator::Sub | Operator::Mul | Operator::Max => true,
            _ => false,
        }
    }

    /// The number of padding bits that the encoder must leave free for the
    /// operator.
    #[verifier::when_used_as_spec(spec_headroom)]
    pub fn headroom(&self) -> (r: usize)
        ensures
            r == self.spec_headroom(),
    {
        match self {
            Operator::Add => 1,
            Operator::AddConstant(_) => 0,
            Operator::Sub => 1,
            Operator::SubConstant(_) => 0,
            Operator::Mul => 2,
            Operator::MulConstant(_) => 1,
            Operator::Max => 1,
            Operator::MaxConstant(_) => 1,
        }
    }

    /// The steps that compute the operator, each bootstrap followed by a key
    /// switch where `key_switch` is set.
    pub fn steps(&self, key_switch: bool) -> (r: Vec<Step>)
        ensures
            r@ == self.pipeline(key_switch),
    {
        let mut steps: Vec<Step> = Vec::new();
        match self {
            Operator::Add => {
                steps.push(Step::Add { left: 0, right: 1 });
                steps.push(Step::Bootstrap { source: 2, table: Lookup::RoundModulo, key_switch });
            },
            Operator::AddConstant(k) => {
                steps.push(Step::AddConstant { source: 0, constant: *k });
            },
            Operator::Sub => {
                steps.push(Step::Sub { left: 0, right: 1 });
                steps.push(Step::Bootstrap { source: 2, table: Lookup::RoundModulo, key_switch });
            },
            Operator::SubConstant(k) => {
                steps.push(Step::SubConstant { source: 0, constant: *k });
            },
            Operator::Mul => {
                steps.push(Step::Add { left: 0, right: 1 });
                steps.push(Step::Sub { left: 0, right: 1 });
                steps.push(
                    Step::Bootstrap { source: 2, table: Lookup::FloorQuarterSquare, key_switch },
                );
                steps.push(
                    Step::Bootstrap { source: 3, table: Lookup::FloorQuarterSquare, key_switch },
                );
                steps.push(Step::Sub { left: 4, right: 5 });
                steps.push(Step::Bootstrap { source: 6, table: Lookup::RoundModulo, key_switch });
            },
            Operator::MulConstant(k) => {
                steps.push(
                    Step::Bootstrap { source: 0, table: Lookup::RoundProduct(*k), key_switch },
                );
            },
            Operator::Max => {
                steps.push(Step::Sub { left: 0, right: 1 });
                steps.push(Step::Bootstrap { source: 2, table: Lookup::Relu, key_switch });
                steps.push(Step::Add { left: 3, right: 1 });
                steps.push(Step::Bootstrap { source: 4, table: Lookup::RoundModulo, key_switch });
            },
            Operator::MaxConstant(k) => {
                steps.push(Step::Bootstrap { source: 0, table: Lookup::MaxWith(*k), key_switch });
            },
        }
        assert(steps@ =~= self.pipeline(key_switch));
        steps
    }

    /// The pipeline of an operator computes what the operator means, on all
    /// plaintexts of the domain and with or without key switches.
    pub proof fn lemma_pipeline_computes(self, key_switch: bool, left: int, right: int, q: int)
        requires
            0 <= left < q,
            0 <= right < q,
        ensures
            outcome(self.pipeline(key_switch), self.operands(left, right), q) == self.value(
                left,
                right,
                q,
            ),
            0 <= self.value(left, right, q) < q,
    {
        match self {
            Operator::Add => lemma_add_computes(key_switch, left, right, q),
            Operator::Sub => lemma_sub_computes(key_switch, left, right, q),
            Operator::Mul => lemma_mul_computes(key_switch, left, right, q),
            Operator::Max => lemma_max_computes(key_switch, left, right, q),
            _ => lemma_constant_computes(self, key_switch, left, q),
        }
    }

    /// The pipeline of an operator can be computed on this machine wherever
    /// the modulus is at most `2^32`.
    pub proof fn lemma_pipeline_evaluable(self, key_switch: bool, left: int, right: int, q: int)
        requires
            0 <= left < q,
            0 <= right < q,
            q <= 0x1_0000_0000,
        ensures
            evaluable(self.pipeline(key_switch), self.operands(left, right), q),
    {
        match self {
            Operator::Mul => lemma_mul_evaluable(key_switch, left, right, q),
            Operator::Max => lemma_max_evaluable(key_switch, left, right, q),
            _ => {
                let steps = self.pipeline(key_switch);
                let inputs = self.operands(left, right);
                reveal_with_fuel(register, 2);
                if self.spec_is_binary() {
                    assert(computable(steps, inputs, q, 2));
                    assert(computable(steps, inputs, q, 3));
                } else {
                    assert(computable(steps, inputs, q, 1));
                }
            },
        }
    }
}

/// The pipeline of the sum computes the sum modulo `q`.
proof fn lemma_add_computes(key_switch: bool, left: int, right: int, q: int)
    requires
        0 <= left < q,
        0 <= right < q,
    ensures
        outcome(Operator::Add.pipeline(key_switch), seq![left, right], q) == (left + right) % q,
        0 <= (left + right) % q < q,
{
    let steps = Operator::Add.pipeline(key_switch);
    let inputs = seq![left, right];
    lemma_mod_bound(left + right, q);
    lemma_mod_twice(left + right, q);
    assert(register(steps, inputs, q, 0) == left);
    assert(register(steps, inputs, q, 1) == right);
    assert(register(steps, inputs, q, 2) == left + right);
    assert(register(steps, inputs, q, 3) == ((left + right) % q) % q);
}

/// The pipeline of the difference computes the difference modulo `q`.
proof fn lemma_sub_computes(key_switch: bool, left: int, right: int, q: int)
    requires
        0 <= left < q,
        0 <= right < q,
    ensures
        outcome(Operator::Sub.pipeline(key_switch), seq![left, right], q) == (left - right) % q,
        0 <= (left - right) % q < q,
{
    let steps = Operator::Sub.pipeline(key_switch);
    let inputs = seq![left, right];
    lemma_mod_bound(left - right, q);
    lemma_mod_twice(left - right, q);
    assert(register(steps, inputs, q, 0) == left);
    assert(register(steps, inputs, q, 1) == right);
    assert(register(steps, inputs, q, 2) == left - right);
    assert(register(steps, inputs, q, 3) == ((left - right) % q) % q);
}

/// The pipeline of the product computes the product modulo `q`: a quarter
/// of the difference of the squares of the sum and of the difference.
proof fn lemma_mul_computes(key_switch: bool, left: int, right: int, q: int)
    requires
        0 <= left < q,
        0 <= right < q,
    ensures
        outcome(Operator::Mul.pipeline(key_switch), seq![left, right], q) == (left * right) % q,
        0 <= (left * right) % q < q,
{
    let steps = Operator::Mul.pipeline(key_switch);
    let inputs = seq![left, right];
    let high = (left + right) * (left + right) / 4;
    let low = (left - right) * (left - right) / 4;
    lemma_quarter_squares(left, right);
    lemma_sub_mod_noop(high, low, q);
    lemma_mod_twice(high, q);
    lemma_mod_twice(low, q);
    lemma_mod_twice(high % q - low % q, q);
    lemma_mod_twice((high % q - low % q) % q, q);
    lemma_mod_bound(left * right, q);
    assert(register(steps, inputs, q, 0) == left);
    assert(register(steps, inputs, q, 1) == right);
    assert(register(steps, inputs, q, 2) == left + right);
    assert(register(steps, inputs, q, 3) == left - right);
    assert(register(steps, inputs, q, 4) == (high % q) % q);
    assert(register(steps, inputs, q, 5) == (low % q) % q);
    assert(register(steps, inputs, q, 6) == high % q - low % q);
    assert(register(steps, inputs, q, 7) == ((high % q - low % q) % q) % q);
}

/// The pipeline of the maximum computes the larger plaintext: the part of
/// the difference that is positive, added to the right operand.
proof fn lemma_max_computes(key_switch: bool, left: int, right: int, q: int)
    requires
        0 <= left < q,
        0 <= right < q,
    ensures
        outcome(Operator::Max.pipeline(key_switch), seq![left, right], q) == larger(left, right),
        0 <= larger(left, right) < q,
{
    let steps = Operator::Max.pipeline(key_switch);
    let inputs = seq![left, right];
    let gap = if left > right {
        left - right
    } else {
        0
    };
    lemma_small_mod(gap as nat, q as nat);
    lemma_small_mod((gap + right) as nat, q as nat);
    assert(register(steps, inputs, q, 0) == left);
    assert(register(steps, inputs, q, 1) == right);
    assert(register(steps, inputs, q, 2) == left - right);
    assert(register(steps, inputs, q, 3) == gap);
    assert(register(steps, inputs, q, 4) == gap + right);
    assert(register(steps, inputs, q, 5) == gap + right);
}

/// The pipeline of an operator with a constant computes what the operator
/// means.
proof fn lemma_constant_computes(operator: Operator, key_switch: bool, left: int, q: int)
    requires
        0 <= left < q,
        !operator.spec_is_binary(),
    ensures
        forall|right: int|
            outcome(operator.pipeline(key_switch), seq![left], q) == #[trigger] operator.value(
                left,
                right,
                q,
            ),
        forall|right: int| 0 <= #[trigger] operator.value(left, right, q) < q,
{
    let steps = operator.pipeline(key_switch);
    let inputs = seq![left];
    assert(register(steps, inputs, q, 0) == left);
    match operator {
        Operator::AddConstant(k) => {
            lemma_mod_bound(left + k, q);
            assert(register(steps, inputs, q, 1) == left + k);
        },
        Operator::SubConstant(k) => {
            lemma_mod_bound(left - k, q);
            assert(register(steps, inputs, q, 1) == left - k);
        },
        Operator::MulConstant(k) => {
            lemma_mod_bound(left * k, q);
            lemma_mod_twice(left * k, q);
            lemma_mod_twice((left * k) % q, q);
            assert(register(steps, inputs, q, 1) == ((left * k) % q) % q);
        },
        Operator::MaxConstant(k) => {
            let bound = larger(left, k as int % q);
            lemma_mod_bound(k as int, q);
            lemma_small_mod(bound as nat, q as nat);
            assert(register(steps, inputs, q, 1) == bound);
        },
        _ => {},
    }
}

/// The pipeline of the product can be computed on this machine.
proof fn lemma_mul_evaluable(key_switch: bool, left: int, right: int, q: int)
    requires
        0 <= left < q,
        0 <= right < q,
        q <= 0x1_0000_0000,
    ensures
        evaluable(Operator::Mul.pipeline(key_switch), seq![left, right], q),
{
    let steps = Operator::Mul.pipeline(key_switch);
    let inputs = seq![left, right];
    let sum = left + right;
    let gap = left - right;
    let high = Lookup::FloorQuarterSquare.value(sum, q);
    let low = Lookup::FloorQuarterSquare.value(gap, q);
    lemma_mod_bound(high, q);
    lemma_mod_bound(low, q);
    assert(register(steps, inputs, q, 0) == left);
    assert(register(steps, inputs, q, 1) == right);
    assert(register(steps, inputs, q, 2) == sum);
    assert(register(steps, inputs, q, 3) == gap);
    assert(register(steps, inputs, q, 4) == high % q);
    assert(register(steps, inputs, q, 5) == low % q);
    assert(register(steps, inputs, q, 6) == high % q - low % q);
    assert(computable(steps, inputs, q, 2));
    assert(computable(steps, inputs, q, 3));
    assert(computable(steps, inputs, q, 4));
    assert(computable(steps, inputs, q, 5));
    assert(computable(steps, inputs, q, 6));
    assert(computable(steps, inputs, q, 7));
}

/// The pipeline of the maximum can be computed on this machine.
proof fn lemma_max_evaluable(key_switch: bool, left: int, right: int, q: int)
    requires
        0 <= left < q,
        0 <= right < q,
        q <= 0x1_0000_0000,
    ensures
        evaluable(Operator::Max.pipeline(key_switch), seq![left, right], q),
{
    let steps = Operator::Max.pipeline(key_switch);
    let inputs = seq![left, right];
    let gap = left - right;
    let kept = Lookup::Relu.value(gap, q);
    lemma_mod_bound(kept, q);
    assert(register(steps, inputs, q, 0) == left);
    assert(register(steps, inputs, q, 1) == right);
    assert(register(steps, inputs, q, 2) == gap);
    assert(register(steps, inputs, q, 3) == kept % q);
    assert(register(steps, inputs, q, 4) == kept % q + right);
    assert(computable(steps, inputs, q, 2));
    assert(computable(steps, inputs, q, 3));
    assert(computable(steps, inputs, q, 4));
    assert(computable(steps, inputs, q, 5));
}

/// The floors of the quarters of the squares of a sum and of a difference
/// differ by the product: both squares leave the same remainder modulo 4.
pub proof fn lemma_quarter_squares(a: int, b: int)
    ensures
        (a + b) * (a + b) / 4 - (a - b) * (a - b) / 4 == a * b,
{
    let s = a + b;
    let d = a - b;
    let e = s % 2;
    let hs = s / 2;
    let hd = d / 2;
    assert(d % 2 == e);
    assert(hd == hs - b);
    let ks = hs * hs + hs * e;
    let kd = hd * hd + hd * e;
    assert(s * s == 4 * ks + e) by (nonlinear_arith)
        requires
            s == 2 * hs + e,
            e == 0 || e == 1,
            ks == hs * hs + hs * e,
    ;
    assert(d * d == 4 * kd + e) by (nonlinear_arith)
        requires
            d == 2 * hd + e,
            e == 0 || e == 1,
            kd == hd * hd + hd * e,
    ;
    assert(ks - kd == a * b) by (nonlinear_arith)
        requires
            hd == hs - b,
            a == 2 * hs + e - b,
            ks == hs * hs + hs * e,
            kd == hd * hd + hd * e,
    ;
}

} // verus!
