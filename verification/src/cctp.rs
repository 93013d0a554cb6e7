//! What this core supplies to the external bridging protocol.  The
//! bridge's deposit-for-burn entry point is an opaque atomic call of the
//! hosting environment: it either succeeds and emits the bridge's own
//! cross-chain message, or it fails and the whole transfer aborts.

use vstd::prelude::*;

verus! {

/// Arguments of the bridge's deposit-for-burn entry point.
#[derive(Clone, Copy, Debug, PartialEq, Eq)]
pub struct DepositForBurnParams {
    /// Amount debited from the transient custody account and burned.
    pub amount: u64,
    /// Destination ledger on which the funds are re-minted.
    pub destination_domain: u32,
    /// Recipient of the re-minted funds.
    pub mint_recipient: [u8; 32],
}

} // verus!
