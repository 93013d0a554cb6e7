//! Protocol fee arithmetic.
//!
//! The fee on a principal `amount` is a percentage part, `fee_bp` basis
//! points of the amount rounded down, plus a flat part `fee_static`.  The
//! percentage product is computed in 128-bit precision, so it never
//! overflows for any pair of 64-bit inputs; a total that does not fit in
//! `u64` (possible only with a flat part near `u64::MAX`) saturates at
//! `u64::MAX`.

use vstd::arithmetic::div_mod::lemma_div_is_ordered;
use vstd::prelude::*;

verus! {

/// Basis-point denominator: `fee_bp == BP` means 100%.
pub const BP: u64 = 10000;

/// The fee as a mathematical integer:
/// `floor(fee_bp * amount / 10000) + fee_static`.
pub open spec fn fee_exact(amount: u64, fee_bp: u64, fee_static: u64) -> int {
    (fee_bp * amount) / (BP as int) + fee_static
}

/// The fee as a 64-bit quantity: the exact value where it fits,
/// `u64::MAX` otherwise.
pub open spec fn fee_saturated(amount: u64, fee_bp: u64, fee_static: u64) -> u64 {
    if fee_exact(amount, fee_bp, fee_static) <= u64::MAX {
        fee_exact(amount, fee_bp, fee_static) as u64
    } else {
        u64::MAX
    }
}

/// Computes the protocol fee on `amount`: `fee_bp` basis points of it,
/// rounded down, plus the flat `fee_static`.  Pure, total, and free of
/// overflow: the multiplication is carried out in 128 bits and the result
/// saturates at `u64::MAX`.
pub fn calculate_fee(amount: u64, fee_bp: u64, fee_static: u64) -> (fee: u64)
    ensures
        fee == fee_saturated(amount, fee_bp, fee_static),
        fee_exact(amount, fee_bp, fee_static) <= u64::MAX ==> fee == fee_exact(
            amount,
            fee_bp,
            fee_static,
        ),
{
    proof {
        assert((fee_bp as int) * (amount as int) <= (u64::MAX as int) * (u64::MAX as int))
            by (nonlinear_arith)
            requires
                fee_bp <= u64::MAX,
                amount <= u64::MAX,
        ;
        assert((u64::MAX as int) * (u64::MAX as int) + (u64::MAX as int) <= u128::MAX as int)
            by (nonlinear_arith);
    }
    let scaled: u128 = (fee_bp as u128) * (amount as u128);
    let percentage: u128 = scaled / (BP as u128);
    proof {
        assert((scaled as int) / (BP as int) <= scaled as int) by (nonlinear_arith)
            requires
                scaled >= 0,
        ;
    }
    let total: u128 = percentage + (fee_static as u128);
    if total > u64::MAX as u128 {
        u64::MAX
    } else {
        total as u64
    }
}

/// Law: a zero percentage and a zero flat part give a zero fee, whatever
/// the amount.
pub proof fn lemma_fee_zero(amount: u64)
    ensures
        fee_saturated(amount, 0, 0) == 0,
{
}

/// Law: the fee is monotonic non-decreasing in the amount and in the
/// percentage, for percentages of at most 100%.
pub proof fn lemma_fee_monotonic(
    amount1: u64,
    amount2: u64,
    fee_bp1: u64,
    fee_bp2: u64,
    fee_static: u64,
)
    requires
        amount1 <= amount2,
        fee_bp1 <= fee_bp2,
        fee_bp2 <= BP,
    ensures
        fee_saturated(amount1, fee_bp1, fee_static) <= fee_saturated(amount2, fee_bp2, fee_static),
{
    assert((fee_bp1 as int) * (amount1 as int) <= (fee_bp2 as int) * (amount2 as int))
        by (nonlinear_arith)
        requires
            amount1 <= amount2,
            fee_bp1 <= fee_bp2,
    ;
    lemma_div_is_ordered(
        (fee_bp1 as int) * (amount1 as int),
        (fee_bp2 as int) * (amount2 as int),
        BP as int,
    );
}

} // verus!
