use vstd::arithmetic::div_mod::lemma_small_mod;
use vstd::arithmetic::power::{lemma_pow0, lemma_pow_increases, lemma_pow_positive, pow};
use vstd::prelude::*;

verus! {

/// The number of smallest denominations in one whole unit of an asset
/// with `decimals` decimal places: ten to the power `decimals`.
pub open spec fn token_unit(decimals: u8) -> int {
    pow(10, decimals as nat)
}

/// An amount is whole when it is an exact multiple of the asset's unit.
pub open spec fn is_whole_amount(amount: u64, decimals: u8) -> bool {
    amount as int % token_unit(decimals) == 0
}

proof fn lemma_token_unit_step(i: u8)
    requires
        i < 255,
    ensures
        token_unit((i + 1) as u8) == 10 * token_unit(i),
        token_unit(i) > 0,
{
    reveal(pow);
    lemma_pow_positive(10, i as nat);
}

/// Whether `amount` is a whole number of units of an asset with `decimals`
/// decimal places. A unit that exceeds every `u64` divides only zero.
pub fn check_amount(amount: u64, decimals: u8) -> (whole: bool)
    ensures
        whole == is_whole_amount(amount, decimals),
{
    let mut unit: u64 = 1;
    let mut i: u8 = 0;
    proof {
        lemma_pow0(10);
    }
    while i < decimals
        invariant
            i <= decimals,
            unit as int == token_unit(i),
            unit > 0,
        decreases decimals - i,
    {
        proof {
            lemma_token_unit_step(i);
        }
        if unit > u64::MAX / 10 {
            proof {
                lemma_pow_increases(10, (i + 1) as nat, decimals as nat);
                lemma_small_mod(amount as nat, token_unit(decimals) as nat);
            }
            return amount == 0;
        }
        unit = unit * 10;
        i = i + 1;
    }
    amount % unit == 0
}

} // verus!
