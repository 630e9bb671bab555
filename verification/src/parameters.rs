//! What a key set is generated from.
use crate::encoder::{power_of_two, Encoder};
use crate::error::Error;
use crate::text::{decimal, decimal_text};
use vstd::arithmetic::power2::pow2;
use vstd::prelude::*;
use vstd::string::StringExecFns;

verus! {

/// The size and the noise of a secret key of scalars.
#[derive(Clone, Copy, Debug, PartialEq, Eq, Structural)]
pub struct LweSetting {
    /// The number of scalars of the key.
    pub dimension: usize,
    /// The binary logarithm of the standard deviation of the noise.
    pub log2_std_dev: i32,
}

/// The size and the noise of a secret key of polynomials.
#[derive(Clone, Copy, Debug, PartialEq, Eq, Structural)]
pub struct RlweSetting {
    /// The number of coefficients of a polynomial.
    pub polynomial_size: usize,
    /// The number of polynomials of the key.
    pub dimension: usize,
    /// The binary logarithm of the standard deviation of the noise.
    pub log2_std_dev: i32,
}

/// The domain of the plaintexts and the cost against noise of the bootstrap
/// and of the key switch.
#[derive(Clone, Copy, Debug, PartialEq, Eq, Structural)]
pub struct Parameters {
    /// The domain of the plaintexts.
    pub encoder: Encoder,
    /// The binary logarithm of the base in which a bootstrap decomposes.
    pub bs_base_log: usize,
    /// The number of levels in which a bootstrap decomposes.
    pub bs_level: usize,
    /// The binary logarithm of the base in which a key switch decomposes.
    pub ks_base_log: usize,
    /// The number of levels in which a key switch decomposes.
    pub ks_level: usize,
    /// The key of polynomials under which a bootstrap ends.
    pub rlwe_setting: RlweSetting,
    /// The key of scalars under which ciphertexts are kept between
    /// bootstraps, where a key switch brings them back to it.
    pub lwe_setting: LweSetting,
    /// Whether every bootstrap is followed by a key switch.
    pub with_ks: bool,
}

/// How the keys of a key set are made.
#[derive(Clone, Copy, Debug, PartialEq, Eq, Structural)]
pub struct KeyRecipe {
    /// Whether the secret key of scalars is sampled by itself. Otherwise it
    /// is read off the secret key of polynomials.
    pub secret_sampled: bool,
    /// Whether the bootstrapping key encrypts the secret key. Otherwise it
    /// holds zeros only.
    pub bootstrapping_filled: bool,
    /// Whether the key-switching key encrypts the secret key. Otherwise it
    /// holds zeros only.
    pub keyswitching_filled: bool,
}

impl Parameters {
    /// The parameters of the integers of `nb_bit_precision` bits with
    /// `nb_bit_padding` bits left free above them. They are refused where
    /// the precision is more than 32 bits or no bit is left free.
    pub fn new(
        nb_bit_precision: usize,
        nb_bit_padding: usize,
        bs_base_log: usize,
        bs_level: usize,
        ks_base_log: usize,
        ks_level: usize,
        rlwe_setting: RlweSetting,
        lwe_setting: LweSetting,
        with_ks: bool,
    ) -> (r: Result<Parameters, Error>)
        ensures
            match r {
                Ok(parameters) => {
                    &&& nb_bit_precision <= 32
                    &&& nb_bit_padding >= 1
                    &&& parameters.encoder.spec_lower_bound() == 0
                    &&& parameters.encoder.spec_upper_bound() == pow2(nb_bit_precision as nat) - 1
                    &&& parameters.encoder.spec_precision_bits() == nb_bit_precision
                    &&& parameters.encoder.spec_padding_bits() == nb_bit_padding
                    &&& parameters.bs_base_log == bs_base_log
                    &&& parameters.bs_level == bs_level
                    &&& parameters.ks_base_log == ks_base_log
                    &&& parameters.ks_level == ks_level
                    &&& parameters.rlwe_setting == rlwe_setting
                    &&& parameters.lwe_setting == lwe_setting
                    &&& parameters.with_ks == with_ks
                },
                Err(error) => {
                    &&& nb_bit_precision > 32 || nb_bit_padding == 0
                    &&& error == Error::InvalidDomain
                },
            },
    {
        let size: u64 = match power_of_two(nb_bit_precision) {
            Some(size) => size,
            None => { return Err(Error::InvalidDomain); },
        };
        let upper: u32 = (size - 1) as u32;
        match Encoder::new(0, upper, nb_bit_precision, nb_bit_padding) {
            Ok(encoder) => Ok(
                Parameters {
                    encoder,
                    bs_base_log,
                    bs_level,
                    ks_base_log,
                    ks_level,
                    rlwe_setting,
                    lwe_setting,
                    with_ks,
                },
            ),
            Err(error) => Err(error),
        }
    }

    /// The number of bits of a plaintext.
    pub fn nb_bit_precision(&self) -> (r: usize)
        ensures
            r == self.encoder.spec_precision_bits(),
    {
        self.encoder.precision_bits()
    }

    /// The number of bits left free above a plaintext.
    pub fn nb_bit_padding(&self) -> (r: usize)
        ensures
            r == self.encoder.spec_padding_bits(),
            r >= 1,
    {
        self.encoder.padding_bits()
    }

    /// The number `q` of plaintexts.
    pub fn modulo(&self) -> (r: u64)
        ensures
            r == self.encoder.spec_modulo(),
            r == pow2(self.encoder.spec_precision_bits() as nat),
    {
        self.encoder.modulo()
    }

    /// The largest plaintext.
    pub fn max(&self) -> (r: u32)
        ensures
            r == self.encoder.spec_upper_bound(),
            r == self.encoder.spec_modulo() - 1,
    {
        self.encoder.upper_bound()
    }

    /// The decisions that key generation takes.
    pub open spec fn spec_recipe(&self, zero: bool) -> KeyRecipe {
        KeyRecipe {
            secret_sampled: self.with_ks && !zero,
            bootstrapping_filled: !zero,
            keyswitching_filled: self.with_ks && !zero,
        }
    }

    /// The decisions that key generation takes. With `zero`, the keys that
    /// the evaluator gets hold zeros only, which costs no time and serves to
    /// measure one; the secret key of scalars is then read off the one of
    /// polynomials. Otherwise the bootstrapping key is filled, and the secret
    /// key of scalars is sampled by itself and the key-switching key filled
    /// exactly where bootstraps are followed by key switches.
    #[verifier::when_used_as_spec(spec_recipe)]
    pub fn recipe(&self, zero: bool) -> (r: KeyRecipe)
        ensures
            r == self.spec_recipe(zero),
    {
        KeyRecipe {
            secret_sampled: self.with_ks && !zero,
            bootstrapping_filled: !zero,
            keyswitching_filled: self.with_ks && !zero,
        }
    }

    /// The text that names the keys of these parameters.
    pub open spec fn spec_prefix(&self) -> Seq<char> {
        if self.with_ks {
            "lwe_"@ + decimal(self.lwe_setting.dimension as nat) + "_rlwe_"@ + decimal(
                self.rlwe_setting.polynomial_size as nat,
            ) + "_"@ + decimal(self.rlwe_setting.dimension as nat) + "_bbs_"@ + decimal(
                self.bs_base_log as nat,
            ) + "_lbs_"@ + decimal(self.bs_level as nat) + "_bks_"@ + decimal(
                self.ks_base_log as nat,
            ) + "_lks_"@ + decimal(self.ks_level as nat)
        } else {
            "rlwe_"@ + decimal(self.rlwe_setting.polynomial_size as nat) + "_"@ + decimal(
                self.rlwe_setting.dimension as nat,
            ) + "_bbs_"@ + decimal(self.bs_base_log as nat) + "_lbs_"@ + decimal(
                self.bs_level as nat,
            )
        }
    }

    /// The text that names the keys of these parameters wherever they are
    /// stored: the sizes of the secret keys and the decompositions, those of
    /// the key switch only where there is one.
    pub fn gen_prefix(&self) -> (r: String)
        ensures
            r@ == self.spec_prefix(),
    {
        if self.with_ks {
            let mut res: String = String::from_str("lwe_");
            res.append(decimal_text(self.lwe_setting.dimension).as_str());
            res.append("_rlwe_");
            res.append(decimal_text(self.rlwe_setting.polynomial_size).as_str());
            res.append("_");
            res.append(decimal_text(self.rlwe_setting.dimension).as_str());
            res.append("_bbs_");
            res.append(decimal_text(self.bs_base_log).as_str());
            res.append("_lbs_");
            res.append(decimal_text(self.bs_level).as_str());
            res.append("_bks_");
            res.append(decimal_text(self.ks_base_log).as_str());
            res.append("_lks_");
            res.append(decimal_text(self.ks_level).as_str());
            res
        } else {
            let mut res: String = String::from_str("rlwe_");
            res.append(decimal_text(self.rlwe_setting.polynomial_size).as_str());
            res.append("_");
            res.append(decimal_text(self.rlwe_setting.dimension).as_str());
            res.append("_bbs_");
            res.append(decimal_text(self.bs_base_log).as_str());
            res.append("_lbs_");
            res.append(decimal_text(self.bs_level).as_str());
            res
        }
    }
}

/// The name under which the secret key of a key set is stored.
pub fn secret_file(prefix: &str) -> (r: String)
    ensures
        r@ == prefix@ + "_secret_key.json"@,
{
    let mut name: String = String::from_str(prefix);
    name.append("_secret_key.json");
    name
}

/// The name under which the bootstrapping key of a key set is stored.
pub fn bootstrapping_file(prefix: &str) -> (r: String)
    ensures
        r@ == prefix@ + "_bootstrapping_key.txt"@,
{
    let mut name: String = String::from_str(prefix);
    name.append("_bootstrapping_key.txt");
    name
}

/// The name under which the key-switching key of a key set is stored.
pub fn keyswitching_file(prefix: &str) -> (r: String)
    ensures
        r@ == prefix@ + "_keyswitching_key.txt"@,
{
    let mut name: String = String::from_str(prefix);
    name.append("_keyswitching_key.txt");
    name
}

} // verus!
