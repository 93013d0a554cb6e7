//! Read-only fee query: what fee a transfer of `amount` would pay under
//! the current configuration, with flat part `fee`.  Informational and
//! unauthenticated; it mutates nothing.

use crate::state::Config;
use crate::utils::fee::calculate_fee;
use crate::utils::fee::fee_saturated;
use vstd::prelude::*;

verus! {

/// Returns the fee the current configuration charges on `amount` with
/// flat part `fee`.
pub fn get_fee_ix(config: &Config, fee: u64, amount: u64) -> (r: u64)
    ensures
        r == fee_saturated(amount, config.fee_bp, fee),
{
    calculate_fee(amount, config.fee_bp, fee)
}

} // verus!
