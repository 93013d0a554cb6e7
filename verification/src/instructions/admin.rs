//! Owner-gated configuration setters.
//!
//! Every setter succeeds only for the configured owner and otherwise
//! leaves the configuration untouched; `set_fee_bp_ix` additionally caps
//! the percentage fee at 100%, and `set_max_native_gas_drop_ix` rejects
//! a destination domain outside the limit table.

use crate::errors::ParamError;
use crate::errors::ProgramError;
use crate::state::Config;
use crate::state::DOMAIN_TABLE_SIZE;
use crate::state::Pubkey;
use crate::state::pubkey_eq;
use crate::utils::fee::BP;
use vstd::prelude::*;

verus! {

/// Updates the percentage fee.  Succeeds if and only if the caller is
/// the owner and `fee_bp` is at most 100%; any failure leaves the
/// configuration unchanged.
pub fn set_fee_bp_ix(config: &mut Config, caller: &Pubkey, fee_bp: u64) -> (r: Result<
    (),
    ProgramError,
>)
    ensures
        *caller != old(config).owner ==> r == Err::<(), ProgramError>(ProgramError::NotOwner)
            && *final(config) == *old(config),
        *caller == old(config).owner && fee_bp > BP ==> r == Err::<(), ProgramError>(
            ProgramError::Param(ParamError::FeeTooHigh),
        ) && *final(config) == *old(config),
        *caller == old(config).owner && fee_bp <= BP ==> r == Ok::<(), ProgramError>(())
            && *final(config) == (Config { fee_bp, ..*old(config) }),
        old(config).wf() ==> final(config).wf(),
{
    if !pubkey_eq(caller, &config.owner) {
        return Err(ProgramError::NotOwner);
    }
    if fee_bp > BP {
        return Err(ProgramError::Param(ParamError::FeeTooHigh));
    }
    config.fee_bp = fee_bp;
    Ok(())
}

/// Updates the authorizer's signer key.  Succeeds if and only if the
/// caller is the owner; a failure leaves the configuration unchanged.
pub fn set_signer_key_ix(config: &mut Config, caller: &Pubkey, signer_key: [u8; 32]) -> (r: Result<
    (),
    ProgramError,
>)
    ensures
        *caller != old(config).owner ==> r == Err::<(), ProgramError>(ProgramError::NotOwner)
            && *final(config) == *old(config),
        *caller == old(config).owner ==> r == Ok::<(), ProgramError>(()) && *final(config) == (
        Config { signer_key, ..*old(config) }),
        old(config).wf() ==> final(config).wf(),
{
    if !pubkey_eq(caller, &config.owner) {
        return Err(ProgramError::NotOwner);
    }
    config.signer_key = signer_key;
    Ok(())
}

/// Updates the pair of fee collectors.  Succeeds if and only if the
/// caller is the owner; a failure leaves the configuration unchanged.
pub fn set_fee_collector_ix(
    config: &mut Config,
    caller: &Pubkey,
    fee_collector_sol: Pubkey,
    fee_collector_usdc: Pubkey,
) -> (r: Result<(), ProgramError>)
    ensures
        *caller != old(config).owner ==> r == Err::<(), ProgramError>(ProgramError::NotOwner)
            && *final(config) == *old(config),
        *caller == old(config).owner ==> r == Ok::<(), ProgramError>(()) && *final(config) == (
        Config { fee_collector_sol, fee_collector_usdc, ..*old(config) }),
        old(config).wf() ==> final(config).wf(),
{
    if !pubkey_eq(caller, &config.owner) {
        return Err(ProgramError::NotOwner);
    }
    config.fee_collector_sol = fee_collector_sol;
    config.fee_collector_usdc = fee_collector_usdc;
    Ok(())
}

/// Updates the pair of gas-drop collectors.  Succeeds if and only if the
/// caller is the owner; a failure leaves the configuration unchanged.
pub fn set_gas_drop_collector_ix(
    config: &mut Config,
    caller: &Pubkey,
    gas_drop_collector_sol: Pubkey,
    gas_drop_collector_usdc: Pubkey,
) -> (r: Result<(), ProgramError>)
    ensures
        *caller != old(config).owner ==> r == Err::<(), ProgramError>(ProgramError::NotOwner)
            && *final(config) == *old(config),
        *caller == old(config).owner ==> r == Ok::<(), ProgramError>(()) && *final(config) == (
        Config { gas_drop_collector_sol, gas_drop_collector_usdc, ..*old(config) }),
        old(config).wf() ==> final(config).wf(),
{
    if !pubkey_eq(caller, &config.owner) {
        return Err(ProgramError::NotOwner);
    }
    config.gas_drop_collector_sol = gas_drop_collector_sol;
    config.gas_drop_collector_usdc = gas_drop_collector_usdc;
    Ok(())
}

/// Updates the cap on gas drops denominated in the bridged asset.
/// Succeeds if and only if the caller is the owner; a failure leaves the
/// configuration unchanged.
pub fn set_max_usdc_gas_drop_ix(config: &mut Config, caller: &Pubkey, max_gas: u64) -> (r: Result<
    (),
    ProgramError,
>)
    ensures
        *caller != old(config).owner ==> r == Err::<(), ProgramError>(ProgramError::NotOwner)
            && *final(config) == *old(config),
        *caller == old(config).owner ==> r == Ok::<(), ProgramError>(()) && *final(config) == (
        Config { max_usdc_gas_drop: max_gas, ..*old(config) }),
        old(config).wf() ==> final(config).wf(),
{
    if !pubkey_eq(caller, &config.owner) {
        return Err(ProgramError::NotOwner);
    }
    config.max_usdc_gas_drop = max_gas;
    Ok(())
}

/// Updates one destination domain's cap on gas drops denominated in the
/// native currency.  Succeeds if and only if the caller is the owner and
/// the domain lies within the limit table; any failure leaves the
/// configuration unchanged.
pub fn set_max_native_gas_drop_ix(
    config: &mut Config,
    caller: &Pubkey,
    destination_domain: u32,
    max_gas: u64,
) -> (r: Result<(), ProgramError>)
    ensures
        *caller != old(config).owner ==> r == Err::<(), ProgramError>(ProgramError::NotOwner)
            && *final(config) == *old(config),
        *caller == old(config).owner && destination_domain >= DOMAIN_TABLE_SIZE ==> r == Err::<
            (),
            ProgramError,
        >(ProgramError::Param(ParamError::InvalidDomain)) && *final(config) == *old(config),
        *caller == old(config).owner && destination_domain < DOMAIN_TABLE_SIZE ==> r == Ok::<
            (),
            ProgramError,
        >(()) && final(config).max_native_gas_drop@ == old(
            config,
        ).max_native_gas_drop@.update(destination_domain as int, max_gas) && *final(config) == (
        Config { max_native_gas_drop: final(config).max_native_gas_drop, ..*old(config) }),
        old(config).wf() ==> final(config).wf(),
{
    if !pubkey_eq(caller, &config.owner) {
        return Err(ProgramError::NotOwner);
    }
    if destination_domain as usize >= DOMAIN_TABLE_SIZE {
        return Err(ProgramError::Param(ParamError::InvalidDomain));
    }
    config.max_native_gas_drop[destination_domain as usize] = max_gas;
    Ok(())
}

/// Hands ownership of the configuration to a new identity.  Succeeds if
/// and only if the caller is the current owner; a failure leaves the
/// configuration unchanged.
pub fn transfer_ownership_ix(config: &mut Config, caller: &Pubkey, new_owner: Pubkey) -> (r: Result<
    (),
    ProgramError,
>)
    ensures
        *caller != old(config).owner ==> r == Err::<(), ProgramError>(ProgramError::NotOwner)
            && *final(config) == *old(config),
        *caller == old(config).owner ==> r == Ok::<(), ProgramError>(()) && *final(config) == (
        Config { owner: new_owner, ..*old(config) }),
        old(config).wf() ==> final(config).wf(),
{
    if !pubkey_eq(caller, &config.owner) {
        return Err(ProgramError::NotOwner);
    }
    config.owner = new_owner;
    Ok(())
}

} // verus!
