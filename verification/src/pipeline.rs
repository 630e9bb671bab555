//! Pipelines of linear combinations and bootstraps, and what they compute.
//!
//! A pipeline works on numbered registers. The operands of an operator fill
//! the first registers; every step reads registers filled before it and
//! fills the next one. The last register holds the result.
use crate::error::Error;
use crate::lookup::Lookup;
use crate::reduction::{residue, round_modulo};
use vstd::prelude::*;

verus! {

/// One request to the encryption scheme.
#[derive(Clone, Copy, Debug, PartialEq, Eq, Structural)]
pub enum Step {
    /// The sum of two registers. It refreshes nothing.
    Add { left: usize, right: usize },
    /// The difference of two registers. It refreshes nothing.
    Sub { left: usize, right: usize },
    /// A register shifted up by a constant. It refreshes nothing.
    AddConstant { source: usize, constant: u64 },
    /// A register shifted down by a constant. It refreshes nothing.
    SubConstant { source: usize, constant: u64 },
    /// The table evaluated on a register and folded into `[0, q)`, as a
    /// fresh ciphertext, followed by a key switch where `key_switch` is set.
    Bootstrap { source: usize, table: Lookup, key_switch: bool },
}

/// What a pipeline does next.
#[derive(Clone, Copy, Debug, PartialEq, Eq, Structural)]
pub enum Action {
    /// Carry out the step and store what it yields in the next register.
    Perform(Step),
    /// The pipeline is over, and the last register holds what it computed.
    Finish,
}

impl Step {
    /// Whether the step reads only registers below `target`.
    pub open spec fn reads_below(self, target: int) -> bool {
        match self {
            Step::Add { left, right } => left < target && right < target,
            Step::Sub { left, right } => left < target && right < target,
            Step::AddConstant { source, .. } => source < target,
            Step::SubConstant { source, .. } => source < target,
            Step::Bootstrap { source, .. } => source < target,
        }
    }
}

/// The integer in register `i` once the pipeline `steps` has run on `inputs`
/// modulo `q`. A register that is never filled, or is read before it is
/// filled, counts as zero.
pub open spec fn register(steps: Seq<Step>, inputs: Seq<int>, q: int, i: int) -> int
    decreases i,
{
    if i < 0 {
        0
    } else if i < inputs.len() {
        inputs[i]
    } else if i < inputs.len() + steps.len() {
        match steps[i - inputs.len()] {
            Step::Add { left, right } => if left < i && right < i {
                register(steps, inputs, q, left as int) + register(steps, inputs, q, right as int)
            } else {
                0
            },
            Step::Sub { left, right } => if left < i && right < i {
                register(steps, inputs, q, left as int) - register(steps, inputs, q, right as int)
            } else {
                0
            },
            Step::AddConstant { source, constant } => if source < i {
                register(steps, inputs, q, source as int) + constant
            } else {
                0
            },
            Step::SubConstant { source, constant } => if source < i {
                register(steps, inputs, q, source as int) - constant
            } else {
                0
            },
            Step::Bootstrap { source, table, .. } => if source < i {
                residue(table.value(register(steps, inputs, q, source as int), q), q)
            } else {
                0
            },
        }
    } else {
        0
    }
}

/// The plaintext that the result of the pipeline decrypts to: the last
/// register, folded into `[0, q)`.
pub open spec fn outcome(steps: Seq<Step>, inputs: Seq<int>, q: int) -> int {
    residue(register(steps, inputs, q, inputs.len() + steps.len() - 1), q)
}

/// Whether register `i` can be computed on this machine: the step that
/// fills it reads registers below it, a linear combination stays within 128
/// bits, and a bootstrap reads a value of 64 bits.
pub open spec fn computable(steps: Seq<Step>, inputs: Seq<int>, q: int, i: int) -> bool
    recommends
        inputs.len() <= i < inputs.len() + steps.len(),
{
    let step = steps[i - inputs.len()];
    &&& step.reads_below(i)
    &&& match step {
        Step::Bootstrap { source, .. } => i64::MIN <= register(steps, inputs, q, source as int)
            <= i64::MAX,
        _ => i128::MIN <= register(steps, inputs, q, i) <= i128::MAX,
    }
}

/// Whether the whole pipeline can be computed on this machine.
pub open spec fn evaluable(steps: Seq<Step>, inputs: Seq<int>, q: int) -> bool {
    &&& steps.len() > 0
    &&& forall|i: int|
        inputs.len() <= i < inputs.len() + steps.len() ==> computable(steps, inputs, q, i)
}

/// The integers that a vector of machine integers holds.
pub open spec fn integers(values: Seq<i128>) -> Seq<int> {
    Seq::new(values.len(), |i: int| values[i] as int)
}

/// Runs a pipeline on plaintexts, as a scheme without noise would run it on
/// ciphertexts, and decrypts the result.
pub fn evaluate(steps: &Vec<Step>, inputs: &Vec<i128>, modulo: u64) -> (r: Option<u64>)
    requires
        modulo > 0,
    ensures
        r is Some <==> evaluable(steps@, integers(inputs@), modulo as int),
        r is Some ==> r->0 == outcome(steps@, integers(inputs@), modulo as int),
{
    let ghost given = integers(inputs@);
    let ghost q = modulo as int;
    if steps.len() == 0 {
        return None;
    }
    let mut registers: Vec<i128> = inputs.clone();
    assert(registers@ =~= inputs@);
    let mut done: usize = 0;
    while done < steps.len()
        invariant
            modulo > 0,
            q == modulo as int,
            given == integers(inputs@),
            done <= steps.len(),
            registers.len() == inputs.len() + done,
            forall|j: int|
                0 <= j < registers.len() ==> registers[j] as int == #[trigger] register(
                    steps@,
                    given,
                    q,
                    j,
                ),
            forall|j: int|
                inputs.len() <= j < inputs.len() + done ==> computable(steps@, given, q, j),
        decreases steps.len() - done,
    {
        let target: usize = registers.len();
        let ghost index = target as int;
        let step: Step = steps[done];
        let next: Option<i128> = match step {
            Step::Add { left, right } => {
                if left < target && right < target {
                    assert(registers[left as int] as int == register(steps@, given, q, left as int));
                    assert(registers[right as int] as int == register(
                        steps@,
                        given,
                        q,
                        right as int,
                    ));
                    registers[left].checked_add(registers[right])
                } else {
                    None
                }
            },
            Step::Sub { left, right } => {
                if left < target && right < target {
                    assert(registers[left as int] as int == register(steps@, given, q, left as int));
                    assert(registers[right as int] as int == register(
                        steps@,
                        given,
                        q,
                        right as int,
                    ));
                    registers[left].checked_sub(registers[right])
                } else {
                    None
                }
            },
            Step::AddConstant { source, constant } => {
                if source < target {
                    assert(registers[source as int] as int == register(
                        steps@,
                        given,
                        q,
                        source as int,
                    ));
                    registers[source].checked_add(constant as i128)
                } else {
                    None
                }
            },
            Step::SubConstant { source, constant } => {
                if source < target {
                    assert(registers[source as int] as int == register(
                        steps@,
                        given,
                        q,
                        source as int,
                    ));
                    registers[source].checked_sub(constant as i128)
                } else {
                    None
                }
            },
            Step::Bootstrap { source, table, key_switch: _ } => {
                if source < target {
                    assert(registers[source as int] as int == register(
                        steps@,
                        given,
                        q,
                        source as int,
                    ));
                    if fits_word(registers[source]) {
                        let looked: u64 = table.apply(registers[source] as i64, modulo);
                        Some(round_modulo(looked as i128, modulo) as i128)
                    } else {
                        None
                    }
                } else {
                    None
                }
            },
        };
        assert(steps@[index - given.len()] == step);
        assert(match next {
            Some(value) => computable(steps@, given, q, index) && value as int == register(
                steps@,
                given,
                q,
                index,
            ),
            None => !computable(steps@, given, q, index),
        });
        match next {
            Some(value) => {
                registers.push(value);
                done = done + 1;
            },
            None => {
                return None;
            },
        }
    }
    let last: i128 = registers[registers.len() - 1];
    Some(round_modulo(last, modulo))
}

/// Whether an integer of 128 bits is one of 64 bits.
fn fits_word(value: i128) -> (r: bool)
    ensures
        r == (i64::MIN <= value <= i64::MAX),
{
    -0x8000_0000_0000_0000 <= value && value <= 0x7fff_ffff_ffff_ffff
}

/// Says what to do once `done` steps of a pipeline have been carried out,
/// the last of them with or without success. A failure ends the pipeline
/// with `ExternalBoundaryFailure`: no step is tried again, and none after it
/// is tried at all.
pub fn advance(steps: &Vec<Step>, done: usize, succeeded: bool) -> (r: Result<Action, Error>)
    ensures
        r == (if !succeeded {
            Err::<Action, Error>(Error::ExternalBoundaryFailure)
        } else if done < steps.len() {
            Ok(Action::Perform(steps[done as int]))
        } else {
            Ok(Action::Finish)
        }),
{
    if !succeeded {
        Err(Error::ExternalBoundaryFailure)
    } else if done < steps.len() {
        Ok(Action::Perform(steps[done]))
    } else {
        Ok(Action::Finish)
    }
}

} // verus!
