//! System initialization: creates the singleton configuration and the
//! custodian, once, with the caller as owner.

use crate::state::Config;
use crate::state::Custodian;
use crate::state::Pubkey;
use vstd::prelude::*;

verus! {

/// Default cap on gas drops denominated in the bridged asset, in its
/// smallest unit.
pub const DEFAULT_MAX_USDC_GAS_DROP: u64 = 100_000_000;

/// Creates the configuration and the custodian: the caller becomes
/// owner, the percentage fee starts at one basis point, the nonce at
/// zero, the signer key zeroed, the bridged-asset gas-drop cap at its
/// default and every per-domain native cap at zero (unlimited).
pub fn initialize_ix(
    caller: &Pubkey,
    fee_collector_sol: Pubkey,
    fee_collector_usdc: Pubkey,
    gas_drop_collector_sol: Pubkey,
    gas_drop_collector_usdc: Pubkey,
    custodian_bump: u8,
) -> (r: (Config, Custodian))
    ensures
        r.0 == (Config {
            owner: *caller,
            fee_collector_sol,
            fee_collector_usdc,
            gas_drop_collector_sol,
            gas_drop_collector_usdc,
            fee_bp: 1,
            nonce: 0,
            signer_key: r.0.signer_key,
            max_usdc_gas_drop: DEFAULT_MAX_USDC_GAS_DROP,
            max_native_gas_drop: r.0.max_native_gas_drop,
        }),
        r.0.signer_key@ == Seq::new(32, |i: int| 0u8),
        r.0.max_native_gas_drop@ == Seq::new(32, |i: int| 0u64),
        r.0.wf(),
        r.1 == (Custodian { bump: custodian_bump }),
{
    let config = Config {
        owner: *caller,
        fee_collector_sol,
        fee_collector_usdc,
        gas_drop_collector_sol,
        gas_drop_collector_usdc,
        fee_bp: 1,
        nonce: 0,
        signer_key: [0u8; 32],
        max_usdc_gas_drop: DEFAULT_MAX_USDC_GAS_DROP,
        max_native_gas_drop: [0u64; 32],
    };
    let custodian = Custodian { bump: custodian_bump };
    proof {
        assert(config.signer_key@ =~= Seq::new(32, |i: int| 0u8));
        assert(config.max_native_gas_drop@ =~= Seq::new(32, |i: int| 0u64));
    }
    (config, custodian)
}

} // verus!
