//! Long-lived entities of the settlement core: the shared configuration
//! and the program-controlled custodian, together with the identity type
//! and the offsets header of the native signature-check operation.

use crate::utils::fee::BP;
use vstd::prelude::*;

verus! {

/// A 32-byte account identity on the local ledger.
pub type Pubkey = [u8; 32];

/// Number of destination domains the per-domain gas-drop limit table
/// covers.
pub const DOMAIN_TABLE_SIZE: usize = 32;

/// Compares two 32-byte identities byte for byte.
pub fn pubkey_eq(a: &Pubkey, b: &Pubkey) -> (r: bool)
    ensures
        r <==> *a == *b,
{
    let mut i: usize = 0;
    while i < 32
        invariant
            i <= 32,
            forall|j: int| 0 <= j < i ==> a@[j] == b@[j],
        decreases 32 - i,
    {
        if a[i] != b[i] {
            return false;
        }
        i += 1;
    }
    proof {
        assert(*a =~= *b);
    }
    true
}

/// The fixed-layout offsets header of the native signature-check
/// operation: where, inside that operation's own data, the signature, the
/// public key and the message lie, and which instruction of the atomic
/// unit declares each of them.
#[derive(Clone, Copy, Debug, PartialEq, Eq)]
pub struct Ed25519SignatureOffsets {
    pub signature_offset: u16,
    pub signature_instruction_index: u16,
    pub public_key_offset: u16,
    pub public_key_instruction_index: u16,
    pub message_data_offset: u16,
    pub message_data_size: u16,
    pub message_instruction_index: u16,
}

/// The singleton configuration: fee policy, collector addresses,
/// gas-drop limits, the authorizer's signer key, and the local transfer
/// nonce.
#[derive(Clone, Copy, Debug, PartialEq, Eq)]
pub struct Config {
    /// Identity authorized to mutate the configuration.
    pub owner: Pubkey,
    /// Collector of the flat fee when it is paid in the native currency.
    pub fee_collector_sol: Pubkey,
    /// Collector of the percentage fee and of the flat fee when the
    /// latter is paid in the bridged asset.
    pub fee_collector_usdc: Pubkey,
    /// Collector of gas drops paid in the native currency.
    pub gas_drop_collector_sol: Pubkey,
    /// Collector of gas drops paid in the bridged asset.
    pub gas_drop_collector_usdc: Pubkey,
    /// Percentage fee in basis points; at most `BP`.
    pub fee_bp: u64,
    /// Local sequence number, incremented exactly once per completed
    /// transfer.
    pub nonce: u64,
    /// Public key whose holder must have signed every transfer
    /// authorization.
    pub signer_key: [u8; 32],
    /// Cap on a gas drop denominated in the bridged asset; `0` means
    /// unlimited.
    pub max_usdc_gas_drop: u64,
    /// Per-destination-domain cap on a gas drop denominated in the native
    /// currency; `0` means unlimited.
    pub max_native_gas_drop: [u64; 32],
}

impl Config {
    /// Well-formedness: the percentage fee never exceeds 100%.
    /// Established at initialization and preserved by every setter.
    pub open spec fn wf(&self) -> bool {
        self.fee_bp <= BP
    }
}

/// The program-controlled signing authority.  It holds no funds and no
/// mutable business state; it only authorizes the move of a transfer's
/// principal into the transient custody account and the bridge's debit
/// from it.
#[derive(Clone, Copy, Debug, PartialEq, Eq)]
pub struct Custodian {
    /// Derivation bump of the authority's program-derived address.
    pub bump: u8,
}

} // verus!
