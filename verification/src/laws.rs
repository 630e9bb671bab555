//! What holds of encryption, decryption and the operators together.
use crate::ciphertext::Plain;
use crate::error::Error;
use crate::homomorphic_key::HomomorphicKey;
use crate::keys::{decrypted, encrypted};
use crate::operator::Operator;
use crate::padding::{
    lemma_operator_within_padding, lemma_protected_grows, lemma_register_within_padding, protected,
    used_bits,
};
use crate::pipeline::register;
use crate::reduction::larger;
use vstd::arithmetic::div_mod::{
    lemma_add_mod_noop_right, lemma_mod_bound, lemma_mod_twice, lemma_small_mod,
};
use vstd::prelude::*;

verus! {

/// An encryption stands for a plaintext of the domain of its key.
pub proof fn law_encryption_in_domain(key: HomomorphicKey, m: int)
    requires
        key.wf(),
    ensures
        encrypted(key, m).wf(),
{
    lemma_mod_bound(m, key.modulo());
}

/// Whatever an operator returns stands for a plaintext of the domain, under
/// the key of its operands.
pub proof fn law_result_in_domain(key: HomomorphicKey, operator: Operator, left: Plain, right: Plain)
    requires
        left.wf(),
        right.wf(),
    ensures
        match key.applied(operator, left, right) {
            Ok(result) => result.wf() && result.key == key,
            Err(_) => true,
        },
{
    if key.applied(operator, left, right) is Ok {
        let q = key.modulo();
        if operator.spec_is_binary() {
            operator.lemma_pipeline_computes(key.key_switch, left.value, right.value, q);
        } else {
            operator.lemma_pipeline_computes(key.key_switch, left.value, 0, q);
            assert(operator.value(left.value, 0, q) == operator.value(left.value, right.value, q));
        }
    }
}

/// Decryption undoes encryption: every plaintext of the domain comes back
/// as it went in.
pub proof fn law_round_trip(key: HomomorphicKey, m: int)
    requires
        key.wf(),
        0 <= m < key.modulo(),
    ensures
        decrypted(key, encrypted(key, m)) == Ok::<int, Error>(m),
{
    lemma_small_mod(m as nat, key.modulo() as nat);
}

/// The sum of two encryptions decrypts to the sum of the plaintexts modulo
/// `q`.
pub proof fn law_addition(key: HomomorphicKey, m1: int, m2: int)
    requires
        key.wf(),
        0 <= m1 < key.modulo(),
        0 <= m2 < key.modulo(),
    ensures
        key.applied(Operator::Add, encrypted(key, m1), encrypted(key, m2)) is Ok,
        decrypted(
            key,
            key.applied(Operator::Add, encrypted(key, m1), encrypted(key, m2))->Ok_0,
        ) == Ok::<int, Error>((m1 + m2) % key.modulo()),
{
    let q = key.modulo();
    lemma_small_mod(m1 as nat, q as nat);
    lemma_small_mod(m2 as nat, q as nat);
    lemma_mod_twice(m1 + m2, q);
}

/// The difference of two encryptions decrypts to the difference of the
/// plaintexts modulo `q`.
pub proof fn law_subtraction(key: HomomorphicKey, m1: int, m2: int)
    requires
        key.wf(),
        0 <= m1 < key.modulo(),
        0 <= m2 < key.modulo(),
    ensures
        key.applied(Operator::Sub, encrypted(key, m1), encrypted(key, m2)) is Ok,
        decrypted(
            key,
            key.applied(Operator::Sub, encrypted(key, m1), encrypted(key, m2))->Ok_0,
        ) == Ok::<int, Error>((m1 - m2 + key.modulo()) % key.modulo()),
{
    let q = key.modulo();
    lemma_small_mod(m1 as nat, q as nat);
    lemma_small_mod(m2 as nat, q as nat);
    lemma_mod_twice(m1 - m2, q);
    assert((m1 - m2 + q) % q == (m1 - m2) % q) by {
        vstd::arithmetic::div_mod::lemma_mod_add_multiples_vanish(m1 - m2, q);
    }
}

/// The product of two encryptions decrypts to the product of the plaintexts
/// modulo `q`, where the encoder leaves the two bits free that the product
/// uses up.
pub proof fn law_multiplication(key: HomomorphicKey, m1: int, m2: int)
    requires
        key.wf(),
        key.encoder.spec_padding_bits() >= 2,
        0 <= m1 < key.modulo(),
        0 <= m2 < key.modulo(),
    ensures
        key.applied(Operator::Mul, encrypted(key, m1), encrypted(key, m2)) is Ok,
        decrypted(
            key,
            key.applied(Operator::Mul, encrypted(key, m1), encrypted(key, m2))->Ok_0,
        ) == Ok::<int, Error>((m1 * m2) % key.modulo()),
{
    let q = key.modulo();
    lemma_small_mod(m1 as nat, q as nat);
    lemma_small_mod(m2 as nat, q as nat);
    lemma_mod_twice(m1 * m2, q);
}

/// The maximum of two encryptions decrypts to the larger plaintext, as an
/// integer and not modulo `q`.
pub proof fn law_maximum(key: HomomorphicKey, m1: int, m2: int)
    requires
        key.wf(),
        0 <= m1 < key.modulo(),
        0 <= m2 < key.modulo(),
    ensures
        key.applied(Operator::Max, encrypted(key, m1), encrypted(key, m2)) is Ok,
        decrypted(
            key,
            key.applied(Operator::Max, encrypted(key, m1), encrypted(key, m2))->Ok_0,
        ) == Ok::<int, Error>(larger(m1, m2)),
{
    let q = key.modulo();
    lemma_small_mod(m1 as nat, q as nat);
    lemma_small_mod(m2 as nat, q as nat);
    lemma_small_mod(larger(m1, m2) as nat, q as nat);
}

/// An operator in place succeeds exactly where the operator that returns its
/// result succeeds, and then leaves in its left operand a ciphertext that
/// decrypts to the same plaintext. Where it fails, it fails in the same way
/// and leaves the operand untouched.
pub proof fn law_in_place(key: HomomorphicKey, operator: Operator, left: Plain, right: Plain)
    ensures
        match key.applied(operator, left, right) {
            Ok(result) => {
                &&& key.applied_in_place(operator, left, right).1 == Ok::<(), Error>(())
                &&& decrypted(key, key.applied_in_place(operator, left, right).0) == decrypted(
                    key,
                    result,
                )
            },
            Err(error) => {
                &&& key.applied_in_place(operator, left, right).1 == Err::<(), Error>(error)
                &&& key.applied_in_place(operator, left, right).0 == left
            },
        },
{
}

/// Where the encoder allows an operator on two ciphertexts, every register
/// of the pipeline stays within what the padding of the encoder protects:
/// between `-2^p q` and `2^p q` for `p` padding bits.
pub proof fn law_padding_protects(
    key: HomomorphicKey,
    operator: Operator,
    left: Plain,
    right: Plain,
    i: int,
)
    requires
        left.wf(),
        right.wf(),
        operator.spec_is_binary(),
        key.applied(operator, left, right) is Ok,
        0 <= i < 2 + operator.pipeline(key.key_switch).len(),
    ensures
        -protected(key.encoder.spec_padding_bits() as nat, key.modulo()) < register(
            operator.pipeline(key.key_switch),
            seq![left.value, right.value],
            key.modulo(),
            i,
        ) < protected(key.encoder.spec_padding_bits() as nat, key.modulo()),
{
    let steps = operator.pipeline(key.key_switch);
    let inputs = seq![left.value, right.value];
    let q = key.modulo();
    lemma_operator_within_padding(operator, key.key_switch);
    assert(inputs.len() == operator.operands(0, 0).len());
    lemma_register_within_padding(steps, inputs, q, i);
    lemma_protected_grows(
        used_bits(steps, 2, i),
        key.encoder.spec_padding_bits() as nat,
        q,
    );
}

/// Adding a constant and adding an encryption of the same constant decrypt
/// to the same plaintext, whatever the constant.
pub proof fn law_constant_parity(key: HomomorphicKey, ciphertext: Plain, k: u64)
    requires
        ciphertext.wf(),
        ciphertext.key == key,
    ensures
        key.applied(Operator::AddConstant(k), ciphertext, ciphertext) is Ok,
        key.applied(Operator::Add, ciphertext, encrypted(key, k as int)) is Ok,
        decrypted(key, key.applied(Operator::AddConstant(k), ciphertext, ciphertext)->Ok_0)
            == decrypted(
            key,
            key.applied(Operator::Add, ciphertext, encrypted(key, k as int))->Ok_0,
        ),
{
    let q = key.modulo();
    lemma_add_mod_noop_right(ciphertext.value, k as int, q);
}

} // verus!
