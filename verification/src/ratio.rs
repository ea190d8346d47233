use vstd::prelude::*;
use vstd::arithmetic::div_mod::{lemma_div_by_multiple, lemma_div_is_ordered_by_denominator};

verus! {

/// The ratio of any positive quantity to itself is exactly one, that is,
/// one thousand thousandths.
pub proof fn lemma_ratio_to_self(x: int)
    requires
        1 <= x,
    ensures
        x * 1000 / x == 1000,
{
    lemma_div_by_multiple(1000, x);
}

/// Ratio of `x` to `reference`, in thousandths, rounded toward zero.
pub fn ratio_milli(x: u64, reference: u64) -> (r: u64)
    requires
        reference >= 1000,
    ensures
        r == x as int * 1000 / reference as int,
{
    let num: u128 = (x as u128) * 1000;
    let q: u128 = num / (reference as u128);
    proof {
        lemma_div_is_ordered_by_denominator(num as int, 1000, reference as int);
        assert(num as int / 1000 == x as int) by (nonlinear_arith)
            requires num == x as int * 1000,
        ;
    }
    q as u64
}

} // verus!
