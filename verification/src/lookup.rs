//! The lookup tables that the operators hand to a bootstrap.
use crate::reduction::{floor_modulo, larger, positive_part, relu, residue, round_modulo};
use vstd::prelude::*;

verus! {

/// A function of one integer that a bootstrap evaluates on an encrypted
/// value.
#[derive(Clone, Copy, Debug, PartialEq, Eq, Structural)]
pub enum Lookup {
    /// The value, folded into `[0, q)`.
    RoundModulo,
    /// The floor of a quarter of the value's square, folded into `[0, q)`.
    FloorQuarterSquare,
    /// Zero where the value is negative, the value elsewhere.
    Relu,
    /// The product of the value and a constant, folded into `[0, q)`.
    RoundProduct(u64),
    /// The larger of the value and the residue of a constant.
    MaxWith(u64),
}

impl Lookup {
    /// What the table holds at `x` when the modulus is `q`.
    pub open spec fn value(self, x: int, q: int) -> int {
        match self {
            Lookup::RoundModulo => residue(x, q),
            Lookup::FloorQuarterSquare => residue((x * x) / 4, q),
            Lookup::Relu => positive_part(x),
            Lookup::RoundProduct(k) => residue(x * (k as int), q),
            Lookup::MaxWith(k) => larger(x, residue(k as int, q)),
        }
    }

    /// Evaluates the table at `x`.
    pub fn apply(&self, x: i64, modulo: u64) -> (y: u64)
        requires
            modulo > 0,
        ensures
            y == self.value(x as int, modulo as int),
    {
        match self {
            Lookup::RoundModulo => round_modulo(x as i128, modulo),
            Lookup::FloorQuarterSquare => {
                proof {
                    lemma_product_fits(x as int, x as int);
                }
                let wide: i128 = x as i128;
                floor_modulo(wide * wide, 4, modulo)
            },
            Lookup::Relu => relu(x) as u64,
            Lookup::RoundProduct(k) => {
                proof {
                    lemma_product_fits(x as int, *k as int);
                }
                let wide: i128 = x as i128;
                let factor: i128 = *k as i128;
                round_modulo(wide * factor, modulo)
            },
            Lookup::MaxWith(k) => {
                let floor: u64 = *k % modulo;
                if x >= 0 && x as u64 >= floor {
                    x as u64
                } else {
                    floor
                }
            },
        }
    }
}

/// The product of a 64-bit signed and a 65-bit signed integer fits in 128
/// bits.
proof fn lemma_product_fits(x: int, y: int)
    by (nonlinear_arith)
    requires
        -0x8000_0000_0000_0000 <= x < 0x8000_0000_0000_0000,
        -0x8000_0000_0000_0000 <= y < 0x1_0000_0000_0000_0000,
    ensures
        -0x8000_0000_0000_0000_0000_0000_0000_0000 <= x * y
            < 0x8000_0000_0000_0000_0000_0000_0000_0000,
{
}

} // verus!
