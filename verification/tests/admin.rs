use cashmere_cctp::errors::ParamError;
use cashmere_cctp::errors::ProgramError;
use cashmere_cctp::instructions::admin::set_fee_bp_ix;
use cashmere_cctp::instructions::admin::set_fee_collector_ix;
use cashmere_cctp::instructions::admin::set_gas_drop_collector_ix;
use cashmere_cctp::instructions::admin::set_max_native_gas_drop_ix;
use cashmere_cctp::instructions::admin::set_max_usdc_gas_drop_ix;
use cashmere_cctp::instructions::admin::set_signer_key_ix;
use cashmere_cctp::instructions::admin::transfer_ownership_ix;
use cashmere_cctp::instructions::initialize::initialize_ix;
use cashmere_cctp::state::Config;

const OWNER: [u8; 32] = [1u8; 32];
const STRANGER: [u8; 32] = [2u8; 32];

fn fresh_config() -> Config {
    let (config, _custodian) = initialize_ix(&OWNER, [3u8; 32], [4u8; 32], [5u8; 32], [6u8; 32], 254);
    config
}

#[test]
fn initialize_defaults() {
    let (config, custodian) = initialize_ix(&OWNER, [3u8; 32], [4u8; 32], [5u8; 32], [6u8; 32], 254);
    assert_eq!(config.owner, OWNER);
    assert_eq!(config.fee_collector_sol, [3u8; 32]);
    assert_eq!(config.fee_collector_usdc, [4u8; 32]);
    assert_eq!(config.gas_drop_collector_sol, [5u8; 32]);
    assert_eq!(config.gas_drop_collector_usdc, [6u8; 32]);
    assert_eq!(config.fee_bp, 1);
    assert_eq!(config.nonce, 0);
    assert_eq!(config.signer_key, [0u8; 32]);
    assert_eq!(config.max_usdc_gas_drop, 100_000_000);
    assert_eq!(config.max_native_gas_drop, [0u64; 32]);
    assert_eq!(custodian.bump, 254);
}

#[test]
fn non_owner_cannot_mutate_anything() {
    let mut config = fresh_config();
    let snapshot = config;
    assert_eq!(set_fee_bp_ix(&mut config, &STRANGER, 5), Err(ProgramError::NotOwner));
    assert_eq!(set_signer_key_ix(&mut config, &STRANGER, [9u8; 32]), Err(ProgramError::NotOwner));
    assert_eq!(
        set_fee_collector_ix(&mut config, &STRANGER, [9u8; 32], [9u8; 32]),
        Err(ProgramError::NotOwner)
    );
    assert_eq!(
        set_gas_drop_collector_ix(&mut config, &STRANGER, [9u8; 32], [9u8; 32]),
        Err(ProgramError::NotOwner)
    );
    assert_eq!(set_max_usdc_gas_drop_ix(&mut config, &STRANGER, 7), Err(ProgramError::NotOwner));
    assert_eq!(
        set_max_native_gas_drop_ix(&mut config, &STRANGER, 0, 7),
        Err(ProgramError::NotOwner)
    );
    assert_eq!(
        transfer_ownership_ix(&mut config, &STRANGER, STRANGER),
        Err(ProgramError::NotOwner)
    );
    assert_eq!(config, snapshot);
}

#[test]
fn owner_updates_fee_bp_within_cap() {
    let mut config = fresh_config();
    assert_eq!(set_fee_bp_ix(&mut config, &OWNER, 10_000), Ok(()));
    assert_eq!(config.fee_bp, 10_000);
    assert_eq!(set_fee_bp_ix(&mut config, &OWNER, 25), Ok(()));
    assert_eq!(config.fee_bp, 25);
}

#[test]
fn fee_bp_above_cap_is_rejected() {
    let mut config = fresh_config();
    let snapshot = config;
    assert_eq!(
        set_fee_bp_ix(&mut config, &OWNER, 10_001),
        Err(ProgramError::Param(ParamError::FeeTooHigh))
    );
    assert_eq!(config, snapshot);
}

#[test]
fn owner_updates_keys_and_collectors() {
    let mut config = fresh_config();
    assert_eq!(set_signer_key_ix(&mut config, &OWNER, [8u8; 32]), Ok(()));
    assert_eq!(config.signer_key, [8u8; 32]);
    assert_eq!(set_fee_collector_ix(&mut config, &OWNER, [10u8; 32], [11u8; 32]), Ok(()));
    assert_eq!(config.fee_collector_sol, [10u8; 32]);
    assert_eq!(config.fee_collector_usdc, [11u8; 32]);
    assert_eq!(set_gas_drop_collector_ix(&mut config, &OWNER, [12u8; 32], [13u8; 32]), Ok(()));
    assert_eq!(config.gas_drop_collector_sol, [12u8; 32]);
    assert_eq!(config.gas_drop_collector_usdc, [13u8; 32]);
    assert_eq!(set_max_usdc_gas_drop_ix(&mut config, &OWNER, 42), Ok(()));
    assert_eq!(config.max_usdc_gas_drop, 42);
}

#[test]
fn native_gas_drop_table_is_per_domain() {
    let mut config = fresh_config();
    assert_eq!(set_max_native_gas_drop_ix(&mut config, &OWNER, 0, 11), Ok(()));
    assert_eq!(set_max_native_gas_drop_ix(&mut config, &OWNER, 31, 22), Ok(()));
    assert_eq!(config.max_native_gas_drop[0], 11);
    assert_eq!(config.max_native_gas_drop[31], 22);
    assert_eq!(config.max_native_gas_drop[15], 0);
}

#[test]
fn out_of_range_domain_is_rejected() {
    let mut config = fresh_config();
    let snapshot = config;
    assert_eq!(
        set_max_native_gas_drop_ix(&mut config, &OWNER, 32, 7),
        Err(ProgramError::Param(ParamError::InvalidDomain))
    );
    assert_eq!(
        set_max_native_gas_drop_ix(&mut config, &OWNER, u32::MAX, 7),
        Err(ProgramError::Param(ParamError::InvalidDomain))
    );
    assert_eq!(config, snapshot);
}

#[test]
fn ownership_transfer_hands_over_the_gate() {
    let mut config = fresh_config();
    assert_eq!(transfer_ownership_ix(&mut config, &OWNER, STRANGER), Ok(()));
    assert_eq!(config.owner, STRANGER);
    // After the handover only the incoming owner may mutate.
    assert_eq!(set_fee_bp_ix(&mut config, &OWNER, 5), Err(ProgramError::NotOwner));
    assert_eq!(set_fee_bp_ix(&mut config, &STRANGER, 5), Ok(()));
    assert_eq!(config.fee_bp, 5);
}
