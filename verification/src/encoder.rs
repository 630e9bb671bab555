//! The domain of the plaintexts.
use crate::error::Error;
use vstd::arithmetic::power2::{lemma2_to64, lemma_pow2_pos, lemma_pow2_strictly_increases, pow2};
use vstd::bits::lemma_u64_shl_is_mul;
use vstd::prelude::*;

verus! {

/// Whether two bounds, a precision and a padding describe the integers
/// modulo a power of two with room above them: the interval starts at zero,
/// holds `2^precision_bits` integers, and at least one bit is kept free.
pub open spec fn describes_domain(
    lower: int,
    upper: int,
    precision_bits: nat,
    padding_bits: nat,
) -> bool {
    &&& lower == 0
    &&& upper == pow2(precision_bits) - 1
    &&& padding_bits >= 1
}

/// The interval `[0, 2^p - 1]` of the plaintexts, the number `p` of bits that
/// one of them takes, and the number of bits left free above them, which
/// linear combinations use up until the next bootstrap.
#[derive(Clone, Copy, Debug, PartialEq, Eq, Structural)]
pub struct Encoder {
    lower: u32,
    upper: u32,
    precision_bits: usize,
    padding_bits: usize,
}

impl Encoder {
    /// The smallest plaintext.
    pub closed spec fn spec_lower_bound(&self) -> u32 {
        self.lower
    }

    /// The largest plaintext.
    pub closed spec fn spec_upper_bound(&self) -> u32 {
        self.upper
    }

    /// The number of bits of a plaintext.
    pub closed spec fn spec_precision_bits(&self) -> usize {
        self.precision_bits
    }

    /// The number of bits left free above a plaintext.
    pub closed spec fn spec_padding_bits(&self) -> usize {
        self.padding_bits
    }

    /// The number `q` of plaintexts.
    pub open spec fn spec_modulo(&self) -> int {
        self.spec_upper_bound() + 1
    }

    /// Every encoder describes a domain.
    #[verifier::type_invariant]
    pub open spec fn wf(&self) -> bool {
        describes_domain(
            self.spec_lower_bound() as int,
            self.spec_upper_bound() as int,
            self.spec_precision_bits() as nat,
            self.spec_padding_bits() as nat,
        )
    }

    /// Builds the encoder of `[lower, upper]`, or refuses bounds, precision
    /// and padding that describe no domain.
    pub fn new(lower: u32, upper: u32, precision_bits: usize, padding_bits: usize) -> (r: Result<
        Encoder,
        Error,
    >)
        ensures
            match r {
                Ok(encoder) => {
                    &&& describes_domain(
                        lower as int,
                        upper as int,
                        precision_bits as nat,
                        padding_bits as nat,
                    )
                    &&& encoder.spec_lower_bound() == lower
                    &&& encoder.spec_upper_bound() == upper
                    &&& encoder.spec_precision_bits() == precision_bits
                    &&& encoder.spec_padding_bits() == padding_bits
                },
                Err(error) => {
                    &&& !describes_domain(
                        lower as int,
                        upper as int,
                        precision_bits as nat,
                        padding_bits as nat,
                    )
                    &&& error == Error::InvalidDomain
                },
            },
    {
        if lower != 0 || padding_bits == 0 {
            return Err(Error::InvalidDomain);
        }
        match power_of_two(precision_bits) {
            Some(size) => {
                if upper as u64 + 1 == size {
                    Ok(Encoder { lower, upper, precision_bits, padding_bits })
                } else {
                    Err(Error::InvalidDomain)
                }
            },
            None => Err(Error::InvalidDomain),
        }
    }

    /// The smallest plaintext.
    #[verifier::when_used_as_spec(spec_lower_bound)]
    pub fn lower_bound(&self) -> (r: u32)
        ensures
            r == self.spec_lower_bound(),
            r == 0,
    {
        proof {
            use_type_invariant(self);
        }
        self.lower
    }

    /// The largest plaintext.
    #[verifier::when_used_as_spec(spec_upper_bound)]
    pub fn upper_bound(&self) -> (r: u32)
        ensures
            r == self.spec_upper_bound(),
    {
        self.upper
    }

    /// The number of bits of a plaintext.
    #[verifier::when_used_as_spec(spec_precision_bits)]
    pub fn precision_bits(&self) -> (r: usize)
        ensures
            r == self.spec_precision_bits(),
    {
        self.precision_bits
    }

    /// The number of bits left free above a plaintext.
    #[verifier::when_used_as_spec(spec_padding_bits)]
    pub fn padding_bits(&self) -> (r: usize)
        ensures
            r == self.spec_padding_bits(),
            r >= 1,
    {
        proof {
            use_type_invariant(self);
        }
        self.padding_bits
    }

    /// The number `q` of plaintexts.
    pub fn modulo(&self) -> (q: u64)
        ensures
            q == self.spec_modulo(),
            q == pow2(self.spec_precision_bits() as nat),
            0 < q <= 0x1_0000_0000,
    {
        proof {
            use_type_invariant(self);
        }
        self.upper as u64 + 1
    }

    /// Folds a message into the domain.
    pub fn reduce(&self, message: u64) -> (m: u64)
        ensures
            m == message as int % self.spec_modulo(),
            m < self.spec_modulo(),
    {
        message % self.modulo()
    }
}

/// `2^bits`, where it is at most `2^32`.
pub(crate) fn power_of_two(bits: usize) -> (r: Option<u64>)
    ensures
        match r {
            Some(size) => size == pow2(bits as nat) && bits <= 32 && 0 < size <= 0x1_0000_0000,
            None => pow2(bits as nat) > 0x1_0000_0000 && bits > 32,
        },
{
    proof {
        lemma2_to64();
    }
    if bits > 32 {
        proof {
            lemma_pow2_strictly_increases(32, bits as nat);
        }
        None
    } else {
        let shift: u64 = bits as u64;
        proof {
            if bits < 32 {
                lemma_pow2_strictly_increases(bits as nat, 32);
            }
            lemma_pow2_pos(bits as nat);
            lemma_u64_shl_is_mul(1, shift);
        }
        Some(1u64 << shift)
    }
}

} // verus!
