//! How many padding bits a pipeline uses up, and what they protect.
//!
//! A sum or a difference of two ciphertexts may be twice as large as the
//! larger operand: it uses up one padding bit more than the operand that has
//! used up more so far. A bootstrap hands back a ciphertext of `[0, q)`,
//! which has used up none.
use crate::operator::Operator;
use crate::pipeline::{register, Step};
use crate::reduction::larger;
use vstd::arithmetic::div_mod::lemma_mod_bound;
use vstd::arithmetic::power2::{
    lemma2_to64, lemma_pow2_strictly_increases, lemma_pow2_unfold, pow2,
};
use vstd::prelude::*;

verus! {

/// The number of padding bits that register `i` has used up, in a pipeline
/// on `inputs` operands.
pub open spec fn used_bits(steps: Seq<Step>, inputs: nat, i: int) -> nat
    decreases i,
{
    if i < inputs {
        0
    } else if i < inputs + steps.len() {
        match steps[i - inputs] {
            Step::Add { left, right } => if left < i && right < i {
                (larger(
                    used_bits(steps, inputs, left as int) as int,
                    used_bits(steps, inputs, right as int) as int,
                ) + 1) as nat
            } else {
                0
            },
            Step::Sub { left, right } => if left < i && right < i {
                (larger(
                    used_bits(steps, inputs, left as int) as int,
                    used_bits(steps, inputs, right as int) as int,
                ) + 1) as nat
            } else {
                0
            },
            Step::AddConstant { source, .. } => if source < i {
                used_bits(steps, inputs, source as int)
            } else {
                0
            },
            Step::SubConstant { source, .. } => if source < i {
                used_bits(steps, inputs, source as int)
            } else {
                0
            },
            Step::Bootstrap { .. } => 0,
        }
    } else {
        0
    }
}

/// Whether no register of the pipeline uses up more than `bits` padding
/// bits.
pub open spec fn within_padding(steps: Seq<Step>, inputs: nat, bits: nat) -> bool {
    forall|i: int| 0 <= i < inputs + steps.len() ==> used_bits(steps, inputs, i) <= bits
}

/// Whether the pipeline shifts no register by a constant.
pub open spec fn without_constants(steps: Seq<Step>) -> bool {
    forall|k: int|
        0 <= k < steps.len() ==> !(#[trigger] steps[k] is AddConstant) && !(steps[k]
            is SubConstant)
}

/// Whether every step reads registers that were filled before it.
pub open spec fn reads_backwards(steps: Seq<Step>, inputs: nat) -> bool {
    forall|k: int| 0 <= k < steps.len() ==> (#[trigger] steps[k]).reads_below(inputs + k)
}

/// Counts the padding bits that a pipeline on `inputs` operands uses up: the
/// largest number that one of its registers has used up. A pipeline in which
/// a step reads a register that is not filled before it has no count.
pub fn padding_used(steps: &Vec<Step>, inputs: usize) -> (r: Option<usize>)
    ensures
        r is Some <==> reads_backwards(steps@, inputs as nat),
        r is Some ==> within_padding(steps@, inputs as nat, r->0 as nat),
        r is Some ==> r->0 == 0 || exists|i: int|
            0 <= i < inputs + steps.len() && used_bits(steps@, inputs as nat, i) == r->0,
{
    let ghost n = inputs as nat;
    let mut used: Vec<usize> = Vec::new();
    let mut most: usize = 0;
    let mut done: usize = 0;
    while done < steps.len()
        invariant
            n == inputs,
            done <= steps.len(),
            used.len() == done,
            most <= done,
            forall|k: int| 0 <= k < done ==> (#[trigger] steps[k]).reads_below(n + k),
            forall|k: int|
                0 <= k < done ==> used[k] as nat == #[trigger] used_bits(steps@, n, n + k),
            forall|k: int| 0 <= k < done ==> #[trigger] used[k] <= k + 1,
            forall|i: int| 0 <= i < n + done ==> #[trigger] used_bits(steps@, n, i) <= most,
            most == 0 || exists|i: int| 0 <= i < n + done && used_bits(steps@, n, i) == most,
        decreases steps.len() - done,
    {
        let ghost index = n + done;
        let step: Step = steps[done];
        let next: Option<usize> = match step {
            Step::Add { left, right } => match (
                bits_of(&used, inputs, left, Ghost(steps@)),
                bits_of(&used, inputs, right, Ghost(steps@)),
            ) {
                (Some(a), Some(b)) => Some(
                    if a >= b {
                        a + 1
                    } else {
                        b + 1
                    },
                ),
                _ => None,
            },
            Step::Sub { left, right } => match (
                bits_of(&used, inputs, left, Ghost(steps@)),
                bits_of(&used, inputs, right, Ghost(steps@)),
            ) {
                (Some(a), Some(b)) => Some(
                    if a >= b {
                        a + 1
                    } else {
                        b + 1
                    },
                ),
                _ => None,
            },
            Step::AddConstant { source, constant: _ } => bits_of(
                &used,
                inputs,
                source,
                Ghost(steps@),
            ),
            Step::SubConstant { source, constant: _ } => bits_of(
                &used,
                inputs,
                source,
                Ghost(steps@),
            ),
            Step::Bootstrap { source, table: _, key_switch: _ } => match bits_of(
                &used,
                inputs,
                source,
                Ghost(steps@),
            ) {
                Some(_) => Some(0),
                None => None,
            },
        };
        assert(match next {
            Some(bits) => step.reads_below(index as int) && bits <= done + 1 && bits
                == used_bits(steps@, n, index as int),
            None => !step.reads_below(index as int),
        });
        match next {
            Some(bits) => {
                let ghost before = used@;
                used.push(bits);
                if bits > most {
                    most = bits;
                }
                done = done + 1;
                proof {
                    assert forall|k: int| 0 <= k < done implies used[k] as nat == #[trigger] used_bits(
                        steps@,
                        n,
                        n + k,
                    ) by {
                        if k < done - 1 {
                            assert(used[k] == before[k]);
                        }
                    }
                    assert forall|k: int| 0 <= k < done implies #[trigger] used[k] <= k + 1 by {
                        if k < done - 1 {
                            assert(used[k] == before[k]);
                        }
                    }
                    assert forall|i: int| 0 <= i < n + done implies #[trigger] used_bits(
                        steps@,
                        n,
                        i,
                    ) <= most by {
                        if i == index {
                        } else if i >= n {
                            assert(used_bits(steps@, n, n + (i - n)) == before[i - n]);
                        }
                    }
                }
            },
            None => {
                return None;
            },
        }
    }
    Some(most)
}

/// The padding bits that register `source` has used up, if it is filled
/// before the register that comes next.
fn bits_of(used: &Vec<usize>, inputs: usize, source: usize, Ghost(steps): Ghost<Seq<Step>>) -> (r:
    Option<usize>)
    requires
        used.len() <= steps.len(),
        forall|k: int|
            0 <= k < used.len() ==> used[k] as nat == #[trigger] used_bits(
                steps,
                inputs as nat,
                inputs + k,
            ),
        forall|k: int| 0 <= k < used.len() ==> #[trigger] used[k] <= k + 1,
    ensures
        r is Some <==> source < inputs + used.len(),
        r is Some ==> r->0 == used_bits(steps, inputs as nat, source as int) && r->0
            <= used.len(),
{
    if source < inputs {
        Some(0)
    } else if source - inputs < used.len() {
        assert(used[source - inputs] as nat == used_bits(
            steps,
            inputs as nat,
            inputs + (source - inputs),
        ));
        Some(used[source - inputs])
    } else {
        None
    }
}

/// The bound below which `bits` padding bits keep an integer: `2^bits q`.
pub open spec fn protected(bits: nat, q: int) -> int {
    pow2(bits) * q
}

/// What the padding protects. In a pipeline without constants, on plaintexts
/// of the domain, a register that has used up no padding bit holds an integer
/// of `[0, q)`, and one that has used up `n` of them holds an integer between
/// `-2^n q` and `2^n q`.
pub proof fn lemma_register_within_padding(steps: Seq<Step>, inputs: Seq<int>, q: int, i: int)
    requires
        q > 0,
        forall|j: int| 0 <= j < inputs.len() ==> 0 <= #[trigger] inputs[j] < q,
        without_constants(steps),
        reads_backwards(steps, inputs.len()),
        0 <= i < inputs.len() + steps.len(),
    ensures
        used_bits(steps, inputs.len(), i) == 0 ==> 0 <= register(steps, inputs, q, i) < q,
        -protected(used_bits(steps, inputs.len(), i), q) < register(steps, inputs, q, i)
            < protected(used_bits(steps, inputs.len(), i), q),
    decreases i,
{
    let n = inputs.len();
    let bits = used_bits(steps, n, i);
    let value = register(steps, inputs, q, i);
    lemma2_to64();
    assert(protected(0, q) == q);
    if i < n {
        assert(bits == 0);
        assert(value == inputs[i]);
    } else {
        let step = steps[i - n];
        assert(step.reads_below(n + (i - n)));
        assert(!(step is AddConstant) && !(step is SubConstant));
        match step {
            Step::Add { left, right } => {
                let a = used_bits(steps, n, left as int);
                let b = used_bits(steps, n, right as int);
                lemma_register_within_padding(steps, inputs, q, left as int);
                lemma_register_within_padding(steps, inputs, q, right as int);
                lemma_doubling(a, b, q);
                assert(bits == (larger(a as int, b as int) + 1) as nat);
                assert(value == register(steps, inputs, q, left as int) + register(
                    steps,
                    inputs,
                    q,
                    right as int,
                ));
            },
            Step::Sub { left, right } => {
                let a = used_bits(steps, n, left as int);
                let b = used_bits(steps, n, right as int);
                lemma_register_within_padding(steps, inputs, q, left as int);
                lemma_register_within_padding(steps, inputs, q, right as int);
                lemma_doubling(a, b, q);
                assert(bits == (larger(a as int, b as int) + 1) as nat);
                assert(value == register(steps, inputs, q, left as int) - register(
                    steps,
                    inputs,
                    q,
                    right as int,
                ));
            },
            Step::Bootstrap { source, table, .. } => {
                lemma_mod_bound(table.value(register(steps, inputs, q, source as int), q), q);
                assert(bits == 0);
            },
            _ => {},
        }
    }
}

/// Two bounds `2^a q` and `2^b q` add up to at most `2^(max(a, b) + 1) q`.
proof fn lemma_doubling(a: nat, b: nat, q: int)
    requires
        q > 0,
    ensures
        protected(a, q) + protected(b, q) <= protected((larger(a as int, b as int) + 1) as nat, q),
{
    let top = larger(a as int, b as int) as nat;
    lemma_pow2_unfold(top + 1);
    if a < top {
        lemma_pow2_strictly_increases(a, top);
    }
    if b < top {
        lemma_pow2_strictly_increases(b, top);
    }
    assert(pow2(a) * q <= pow2(top) * q) by (nonlinear_arith)
        requires
            pow2(a) <= pow2(top),
            q > 0,
    ;
    assert(pow2(b) * q <= pow2(top) * q) by (nonlinear_arith)
        requires
            pow2(b) <= pow2(top),
            q > 0,
    ;
    assert(pow2(top + 1) * q == 2 * (pow2(top) * q)) by (nonlinear_arith)
        requires
            pow2(top + 1) == 2 * pow2(top),
    ;
}

/// More padding bits protect more.
pub proof fn lemma_protected_grows(fewer: nat, more: nat, q: int)
    requires
        fewer <= more,
        q > 0,
    ensures
        protected(fewer, q) <= protected(more, q),
{
    if fewer < more {
        lemma_pow2_strictly_increases(fewer, more);
    }
    assert(pow2(fewer) * q <= pow2(more) * q) by (nonlinear_arith)
        requires
            pow2(fewer) <= pow2(more),
            q > 0,
    ;
}

/// The pipeline of an operator reads backwards and uses up no more padding
/// bits than the operator asks of the encoder. With two ciphertexts it
/// shifts by no constant.
pub proof fn lemma_operator_within_padding(operator: Operator, key_switch: bool)
    ensures
        reads_backwards(
            operator.pipeline(key_switch),
            operator.operands(0, 0).len(),
        ),
        within_padding(
            operator.pipeline(key_switch),
            operator.operands(0, 0).len(),
            operator.spec_headroom() as nat,
        ),
        operator.spec_is_binary() ==> without_constants(operator.pipeline(key_switch)),
{
    let steps = operator.pipeline(key_switch);
    let n = operator.operands(0, 0).len();
    match operator {
        Operator::Add | Operator::Sub => {
            assert(steps[0].reads_below(2));
            assert(steps[1].reads_below(3));
            assert(used_bits(steps, n, 0) == 0);
            assert(used_bits(steps, n, 1) == 0);
            assert(used_bits(steps, n, 2) == 1);
            assert(used_bits(steps, n, 3) == 0);
        },
        Operator::Mul => {
            assert(steps[0].reads_below(2));
            assert(steps[1].reads_below(3));
            assert(steps[2].reads_below(4));
            assert(steps[3].reads_below(5));
            assert(steps[4].reads_below(6));
            assert(steps[5].reads_below(7));
            assert(used_bits(steps, n, 0) == 0);
            assert(used_bits(steps, n, 1) == 0);
            assert(used_bits(steps, n, 2) == 1);
            assert(used_bits(steps, n, 3) == 1);
            assert(used_bits(steps, n, 4) == 0);
            assert(used_bits(steps, n, 5) == 0);
            assert(used_bits(steps, n, 6) == 1);
            assert(used_bits(steps, n, 7) == 0);
        },
        Operator::Max => {
            assert(steps[0].reads_below(2));
            assert(steps[1].reads_below(3));
            assert(steps[2].reads_below(4));
            assert(steps[3].reads_below(5));
            assert(used_bits(steps, n, 0) == 0);
            assert(used_bits(steps, n, 1) == 0);
            assert(used_bits(steps, n, 2) == 1);
            assert(used_bits(steps, n, 3) == 0);
            assert(used_bits(steps, n, 4) == 1);
            assert(used_bits(steps, n, 5) == 0);
        },
        _ => {
            assert(steps[0].reads_below(1));
            assert(used_bits(steps, n, 0) == 0);
            assert(used_bits(steps, n, 1) == 0);
        },
    }
}

} // verus!
