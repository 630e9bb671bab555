//! The keys of the user, which encrypt and decrypt.
use crate::ciphertext::{Ciphertext, Plain};
use crate::encoder::Encoder;
use crate::error::Error;
use crate::homomorphic_key::HomomorphicKey;
use crate::parameters::Parameters;
use crate::reduction::round_modulo;
use vstd::arithmetic::power2::lemma2_to64;
use vstd::pervasive::unreached;
use vstd::prelude::*;

verus! {

/// The number of bits of a plaintext of the integers modulo eight.
pub const NBBITPRECISION: usize = 3;

/// The number of integers modulo eight.
pub const MOD: usize = 8;

/// The largest integer modulo eight.
pub const MAX: u32 = 7;

/// The number of bits left free above an integer modulo eight.
pub const NBBITPADDING: usize = 2;

/// The binary logarithm of the base in which a bootstrap of the integers
/// modulo eight decomposes.
pub const BASELOG: usize = 6;

/// The number of levels in which a bootstrap of the integers modulo eight
/// decomposes.
pub const LEVEL: usize = 4;

/// What stands for the encryption of `message` under a key set: its residue
/// modulo `q`.
pub open spec fn encrypted(key: HomomorphicKey, message: int) -> Plain {
    Plain { value: message % key.modulo(), key }
}

/// What a ciphertext decrypts to under the secret key of a key set, if it
/// was made under that key set.
pub open spec fn decrypted(key: HomomorphicKey, ciphertext: Plain) -> Result<int, Error> {
    if ciphertext.key != key {
        Err(Error::CapabilityMismatch)
    } else {
        Ok(ciphertext.value % key.modulo())
    }
}

/// The secret of a key set. It encrypts for the evaluation key of the same
/// key set and decrypts what was computed under it.
#[derive(Clone, Copy, Debug, PartialEq, Eq, Structural)]
pub struct SecretKey {
    /// The evaluation key of the key set.
    pub evaluation: HomomorphicKey,
}

/// The secret key of a user together with the evaluation key that the
/// ciphertexts take along.
#[derive(Clone, Copy, Debug, PartialEq, Eq, Structural)]
pub struct EncryptKey {
    /// The secret of the key set.
    pub secret: SecretKey,
}

impl SecretKey {
    /// Encrypts the residue of `message` modulo `q`.
    pub fn encrypt(&self, message: usize) -> (r: Ciphertext)
        ensures
            r@ == encrypted(self.evaluation, message as int),
    {
        let m: u64 = self.evaluation.encoder.reduce(message as u64);
        Ciphertext::fresh(m, self.evaluation)
    }

    /// Decrypts a ciphertext of this key set, and folds what comes out into
    /// `[0, q)`. A ciphertext of another key set gives `CapabilityMismatch`.
    pub fn decrypt(&self, ct: &Ciphertext) -> (r: Result<usize, Error>)
        ensures
            match r {
                Ok(message) => decrypted(self.evaluation, ct@) == Ok::<int, Error>(message as int),
                Err(error) => decrypted(self.evaluation, ct@) == Err::<int, Error>(error),
            },
    {
        if !(ct.evaluation_key() == self.evaluation) {
            return Err(Error::CapabilityMismatch);
        }
        let modulo: u64 = self.evaluation.encoder.modulo();
        let dec: u64 = ct.payload();
        Ok(round_modulo(dec as i128, modulo) as usize)
    }
}

impl EncryptKey {
    /// The keys of the key set `identity` for the given parameters.
    pub fn new(parameters: &Parameters, identity: u64) -> (r: EncryptKey)
        ensures
            r.secret.evaluation == (HomomorphicKey {
                identity,
                encoder: parameters.encoder,
                key_switch: parameters.with_ks,
            }),
    {
        let evaluation = HomomorphicKey {
            identity,
            encoder: parameters.encoder,
            key_switch: parameters.with_ks,
        };
        EncryptKey { secret: SecretKey { evaluation } }
    }

    /// The evaluation key that the ciphertexts of this key take along.
    pub open spec fn spec_evaluation(&self) -> HomomorphicKey {
        self.secret.evaluation
    }

    /// The evaluation key that the ciphertexts of this key take along.
    #[verifier::when_used_as_spec(spec_evaluation)]
    pub fn evaluation(&self) -> (r: HomomorphicKey)
        ensures
            r == self.spec_evaluation(),
    {
        self.secret.evaluation
    }

    /// Encrypts the residue of `message` modulo `q`.
    pub fn encrypt(&self, message: usize) -> (r: Ciphertext)
        ensures
            r@ == encrypted(self.spec_evaluation(), message as int),
    {
        self.secret.encrypt(message)
    }

    /// Decrypts a ciphertext of this key set, and folds what comes out into
    /// `[0, q)`. A ciphertext of another key set gives `CapabilityMismatch`.
    pub fn decrypt(&self, ct: &Ciphertext) -> (r: Result<usize, Error>)
        ensures
            match r {
                Ok(message) => decrypted(self.spec_evaluation(), ct@) == Ok::<int, Error>(
                    message as int,
                ),
                Err(error) => decrypted(self.spec_evaluation(), ct@) == Err::<int, Error>(error),
            },
    {
        self.secret.decrypt(ct)
    }
}

/// The keys of the key set `identity` for the integers modulo eight, with
/// two bits of padding and no key switch.
pub fn setup(identity: u64) -> (r: (SecretKey, HomomorphicKey))
    ensures
        r.0.evaluation == r.1,
        r.1.identity == identity,
        !r.1.key_switch,
        r.1.encoder.spec_lower_bound() == 0,
        r.1.encoder.spec_upper_bound() == MAX,
        r.1.encoder.spec_precision_bits() == NBBITPRECISION,
        r.1.encoder.spec_padding_bits() == NBBITPADDING,
        r.1.modulo() == MOD,
{
    proof {
        lemma2_to64();
    }
    let encoder: Encoder = match Encoder::new(0, MAX, NBBITPRECISION, NBBITPADDING) {
        Ok(encoder) => encoder,
        Err(_) => unreached(),
    };
    let evaluation = HomomorphicKey { identity, encoder, key_switch: false };
    (SecretKey { evaluation }, evaluation)
}

} // verus!
