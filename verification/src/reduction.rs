//! The functions that a bootstrap is asked to tabulate, over the integers.
//!
//! A scheme decodes to reals that lie close to integers; every function here
//! is given on the integer that such a real rounds to, or on a quotient of
//! two integers, where it is exact.
use vstd::prelude::*;

verus! {

/// The representative of `x` modulo `q` in `[0, q)`.
pub open spec fn residue(x: int, q: int) -> int {
    x % q
}

/// The larger of zero and `x`.
pub open spec fn positive_part(x: int) -> int {
    if x > 0 {
        x
    } else {
        0
    }
}

/// The larger of two integers.
pub open spec fn larger(x: int, y: int) -> int {
    if x >= y {
        x
    } else {
        y
    }
}

/// Folds an integer into `[0, modulo)`.
pub fn round_modulo(x: i128, modulo: u64) -> (r: u64)
    requires
        modulo > 0,
    ensures
        r == residue(x as int, modulo as int),
        r < modulo,
{
    match x.checked_rem_euclid(modulo as i128) {
        Some(r) => r as u64,
        None => 0,
    }
}

/// Folds the floor of `numerator / denominator` into `[0, modulo)`.
pub fn floor_modulo(numerator: i128, denominator: u64, modulo: u64) -> (r: u64)
    requires
        denominator > 0,
        modulo > 0,
    ensures
        r == residue(numerator as int / denominator as int, modulo as int),
        r < modulo,
{
    proof {
        lemma_quotient_no_larger(numerator as int, denominator as int);
    }
    match numerator.checked_div_euclid(denominator as i128) {
        Some(floor) => round_modulo(floor, modulo),
        None => 0,
    }
}

/// Dividing by a positive integer brings no integer further from zero than
/// one step below itself.
proof fn lemma_quotient_no_larger(n: int, d: int)
    by (nonlinear_arith)
    requires
        d > 0,
    ensures
        n >= 0 ==> 0 <= n / d <= n,
        n < 0 ==> n <= n / d < 0,
{
}

/// Zero for a negative integer, the integer itself otherwise.
pub fn relu(x: i64) -> (r: i64)
    ensures
        r == positive_part(x as int),
{
    if x > 0 {
        x
    } else {
        0
    }
}

} // verus!
