//! The settlement threshold of an exchange.
use vstd::prelude::*;

verus! {

/// `ceil(taker_amount * 95 / 100)`: the least balance of vault B that settles.
pub open spec fn min_acceptable(taker_amount: u64) -> int {
    (taker_amount * 95 + 99) / 100
}

/// The least balance of vault B that an exchange accepts: 95% of the
/// requested amount, rounded up.
pub fn min_acceptable_amount(taker_amount: u64) -> (r: u64)
    ensures
        r == min_acceptable(taker_amount),
        r <= taker_amount,
{
    let t: u128 = taker_amount as u128;
    let r: u128 = (t * 95 + 99) / 100;
    assert(r <= t) by (nonlinear_arith)
        requires
            r == (t * 95 + 99) / 100,
    ;
    r as u64
}

} // verus!
