//! The event a completed transfer emits.  It is handed to the hosting
//! environment for publication; this core does not persist it.

use crate::state::Pubkey;
use vstd::prelude::*;

verus! {

/// Record of one completed transfer.
#[derive(Clone, Copy, Debug, PartialEq, Eq)]
pub struct TransferEvent {
    /// Destination ledger of the bridged funds.
    pub destination_domain: u32,
    /// Local sequence number after this transfer.
    pub nonce: u64,
    /// Recipient of the re-minted funds on the destination ledger.
    pub recipient: [u8; 32],
    /// Originating owner identity as seen by the destination ledger.
    pub solana_owner: [u8; 32],
    /// The caller whose funds were moved.
    pub user: Pubkey,
    /// Net amount handed to the bridge, after the fee was taken.
    pub amount: u64,
    /// Gas-drop amount extracted alongside the transfer.
    pub gas_drop_amount: u64,
    /// Whether the flat fee and the gas drop were paid in the native
    /// currency.
    pub fee_is_native: bool,
    /// The bridge's own sequence number; not known synchronously, so
    /// reported as the sentinel `-1`.
    pub cctp_nonce: i64,
    /// Reference to the bridge's message record.
    pub cctp_message: Pubkey,
}

} // verus!
