//! The transfer orchestrator.
//!
//! One transfer runs as a single atomic unit through the stages
//! validating, pricing, fee settlement, gas-drop settlement, principal
//! custody, bridge delegation and bookkeeping.  Any failure at any stage
//! aborts the whole unit: the configuration and every balance are left
//! exactly as they were, and the single failure code of the first failing
//! check is reported.
//!
//! The checks run in this order:
//!
//! 1. the caller-supplied token program handle must be the bridged
//!    asset's token program (`InvalidTokenProgram`);
//! 2. the companion signature-check operation must attest the canonical
//!    authorization bytes under the configured signer key (the
//!    verifier's own error is propagated);
//! 3. the deadline must not lie in the past (`DeadlineExpired`);
//! 4. the fee must not exceed the principal (`FeeExceedsAmount`);
//! 5. a native-denominated gas drop needs a destination domain inside
//!    the limit table (`InvalidDomain`);
//! 6. the gas drop must respect the applicable nonzero limit
//!    (`GasDropLimitExceeded`);
//! 7. the caller must hold the moved amounts, first in the bridged asset
//!    (`InsufficientFunds`), then in the native currency
//!    (`NativeAmountTooLow`), and no collector balance may overflow
//!    (`BalanceOverflow`);
//! 8. the external bridge must accept the deposit-for-burn call
//!    (`BridgeRejected`).
//!
//! Only when all of them pass are the balances moved, the nonce
//! incremented by exactly one, and the event and the bridge-call
//! arguments produced.

use crate::cctp::DepositForBurnParams;
use crate::errors::ParamError;
use crate::errors::ProgramError;
use crate::errors::TransferError;
use crate::events::TransferEvent;
use crate::state::Config;
use crate::state::DOMAIN_TABLE_SIZE;
use crate::state::Pubkey;
use crate::state::pubkey_eq;
use crate::utils::ed25519::spec_verify;
use crate::utils::ed25519::verify_ed25519_ix;
use crate::utils::fee::calculate_fee;
use crate::utils::fee::fee_saturated;
use vstd::bytes::spec_u32_to_le_bytes;
use vstd::bytes::spec_u64_to_le_bytes;
use vstd::bytes::u32_to_le_bytes;
use vstd::bytes::u64_to_le_bytes;
use vstd::prelude::*;

verus! {

/// The bridging protocol's identifier of the local ledger.
pub const LOCAL_DOMAIN: u32 = 5;

/// Key of the bridged asset's token program.
pub const TOKEN_PROGRAM_ID: Pubkey = [
    6u8,
    221,
    246,
    225,
    215,
    101,
    161,
    147,
    217,
    203,
    225,
    70,
    206,
    235,
    121,
    172,
    28,
    180,
    133,
    237,
    95,
    91,
    55,
    145,
    58,
    140,
    245,
    133,
    126,
    255,
    0,
    169,
];

/// The tuple the off-chain authorizer signs, reconstructed locally from
/// the request parameters on every transfer.
#[derive(Clone, Copy, Debug, PartialEq, Eq)]
pub struct TransferParams {
    /// Always `LOCAL_DOMAIN`: the authorization is bound to this ledger.
    pub local_domain: u32,
    /// Destination ledger of the transfer.
    pub destination_domain: u32,
    /// Flat fee the authorizer quoted.
    pub fee: u64,
    /// Time until which the authorization is valid.
    pub deadline: u64,
    /// Whether the flat fee and the gas drop are paid in the native
    /// currency.
    pub fee_is_native: bool,
}

impl TransferParams {
    /// The canonical serialization: every field in declaration order,
    /// integers little endian, the flag as a single `0`/`1` byte.
    /// Deterministic and order-stable, so that the bytes signed off
    /// chain and the bytes reconstructed here can never diverge for
    /// equal tuples.
    pub open spec fn spec_bytes(self) -> Seq<u8> {
        spec_u32_to_le_bytes(self.local_domain) + spec_u32_to_le_bytes(self.destination_domain)
            + spec_u64_to_le_bytes(self.fee) + spec_u64_to_le_bytes(self.deadline) + seq![
            if self.fee_is_native {
                1u8
            } else {
                0u8
            },
        ]
    }

    /// Serializes the tuple canonically.
    pub fn to_bytes(&self) -> (r: Vec<u8>)
        ensures
            r@ == self.spec_bytes(),
    {
        let mut out = u32_to_le_bytes(self.local_domain);
        let mut part = u32_to_le_bytes(self.destination_domain);
        out.append(&mut part);
        let mut part = u64_to_le_bytes(self.fee);
        out.append(&mut part);
        let mut part = u64_to_le_bytes(self.deadline);
        out.append(&mut part);
        out.push(if self.fee_is_native { 1 } else { 0 });
        proof {
            assert(out@ =~= self.spec_bytes());
        }
        out
    }
}

/// The canonical authorization bytes for one request.
pub open spec fn spec_authorization_bytes(
    destination_domain: u32,
    fee: u64,
    deadline: u64,
    fee_is_native: bool,
) -> Seq<u8> {
    (TransferParams {
        local_domain: LOCAL_DOMAIN,
        destination_domain,
        fee,
        deadline,
        fee_is_native,
    }).spec_bytes()
}

/// What the hosting environment hands one transfer request: the keys it
/// resolved, its clock, and the outcome of the opaque bridge call.
#[derive(Clone, Copy, Debug, PartialEq, Eq)]
pub struct TransferContext {
    /// Key of the token program handle the caller supplied.
    pub token_program: Pubkey,
    /// The caller: signer of the request and owner of the moved funds.
    pub user: Pubkey,
    /// Address of the bridge's message record for this transfer.
    pub cctp_message: Pubkey,
    /// Current time of the environment's clock.
    pub now: u64,
    /// Whether the bridge accepts the deposit-for-burn call.  The call
    /// is atomic and opaque; the orchestration only propagates its
    /// outcome, and a refusal rolls the whole unit back.
    pub bridge_accepts: bool,
}

/// The balances one transfer may move: the caller's and the four
/// collectors'.  The transient custody account is created, consumed and
/// closed within one request and so never appears here.
#[derive(Clone, Copy, Debug, PartialEq, Eq)]
pub struct Balances {
    /// The caller's bridged-asset balance.
    pub owner_usdc: u64,
    /// The caller's native-currency balance.
    pub owner_sol: u64,
    /// The bridged-asset fee collector's balance.
    pub fee_collector_usdc: u64,
    /// The native fee collector's balance.
    pub fee_collector_sol: u64,
    /// The bridged-asset gas-drop collector's balance.
    pub gas_drop_collector_usdc: u64,
    /// The native gas-drop collector's balance.
    pub gas_drop_collector_sol: u64,
}

/// Pricing: the fee charged in the bridged asset.  The flat part is
/// charged here only when the caller did not opt to pay it natively.
pub open spec fn spec_usdc_fee(config: Config, usdc_amount: u64, fee: u64, fee_is_native: bool) -> u64 {
    fee_saturated(
        usdc_amount,
        config.fee_bp,
        if fee_is_native {
            0u64
        } else {
            fee
        },
    )
}

/// The flat fee charged in the native currency.
pub open spec fn spec_native_fee(fee: u64, fee_is_native: bool) -> u64 {
    if fee_is_native {
        fee
    } else {
        0u64
    }
}

/// The gas drop charged in the native currency.
pub open spec fn spec_gas_sol(gas_drop_amount: u64, fee_is_native: bool) -> u64 {
    if fee_is_native {
        gas_drop_amount
    } else {
        0u64
    }
}

/// The gas drop charged in the bridged asset.
pub open spec fn spec_gas_usdc(gas_drop_amount: u64, fee_is_native: bool) -> u64 {
    if fee_is_native {
        0u64
    } else {
        gas_drop_amount
    }
}

/// The applicable gas-drop limit: the destination domain's native cap
/// when the drop is paid natively, the bridged-asset cap otherwise.
/// `0` means unlimited.
pub open spec fn spec_gas_drop_limit(
    config: Config,
    destination_domain: u32,
    fee_is_native: bool,
) -> u64 {
    if fee_is_native {
        config.max_native_gas_drop@[destination_domain as int]
    } else {
        config.max_usdc_gas_drop
    }
}

/// Why one transfer aborts, if it does: the error of the first failing
/// check in the order the module documentation gives, or `None` when
/// every check passes and the unit commits.
pub open spec fn spec_transfer_abort(
    config: Config,
    balances: Balances,
    sig_data: Seq<u8>,
    ctx: TransferContext,
    usdc_amount: u64,
    destination_domain: u32,
    fee: u64,
    deadline: u64,
    gas_drop_amount: u64,
    fee_is_native: bool,
) -> Option<ProgramError> {
    let usdc_fee = spec_usdc_fee(config, usdc_amount, fee, fee_is_native);
    let native_fee = spec_native_fee(fee, fee_is_native);
    let gas_sol = spec_gas_sol(gas_drop_amount, fee_is_native);
    let gas_usdc = spec_gas_usdc(gas_drop_amount, fee_is_native);
    let verified = spec_verify(
        sig_data,
        spec_authorization_bytes(destination_domain, fee, deadline, fee_is_native),
        config.signer_key@,
    );
    if ctx.token_program != TOKEN_PROGRAM_ID {
        Some(ProgramError::Transfer(TransferError::InvalidTokenProgram))
    } else if verified is Err {
        Some(ProgramError::Signature(verified->Err_0))
    } else if ctx.now > deadline {
        Some(ProgramError::Transfer(TransferError::DeadlineExpired))
    } else if usdc_fee > usdc_amount {
        Some(ProgramError::Transfer(TransferError::FeeExceedsAmount))
    } else if fee_is_native && destination_domain >= DOMAIN_TABLE_SIZE {
        Some(ProgramError::Param(ParamError::InvalidDomain))
    } else if ({
        let limit = spec_gas_drop_limit(config, destination_domain, fee_is_native);
        limit != 0 && gas_drop_amount > limit
    }) {
        Some(ProgramError::Transfer(TransferError::GasDropLimitExceeded))
    } else if balances.owner_usdc < usdc_amount + gas_usdc {
        Some(ProgramError::InsufficientFunds)
    } else if balances.fee_collector_usdc + usdc_fee > u64::MAX || balances.gas_drop_collector_usdc
        + gas_usdc > u64::MAX {
        Some(ProgramError::BalanceOverflow)
    } else if balances.owner_sol < native_fee + gas_sol {
        Some(ProgramError::Transfer(TransferError::NativeAmountTooLow))
    } else if balances.fee_collector_sol + native_fee > u64::MAX || balances.gas_drop_collector_sol
        + gas_sol > u64::MAX {
        Some(ProgramError::BalanceOverflow)
    } else if !ctx.bridge_accepts {
        Some(ProgramError::BridgeRejected)
    } else {
        None
    }
}

/// The balances after a committed transfer: the caller paid the
/// principal and the bridged-asset gas drop from the bridged-asset
/// balance and the native fee and gas drop from the native balance, each
/// collector received its part, and the net principal left for the
/// bridge.
pub open spec fn spec_balances_after(
    balances: Balances,
    usdc_amount: u64,
    usdc_fee: u64,
    native_fee: u64,
    gas_sol: u64,
    gas_usdc: u64,
) -> Balances {
    Balances {
        owner_usdc: (balances.owner_usdc - usdc_amount - gas_usdc) as u64,
        owner_sol: (balances.owner_sol - native_fee - gas_sol) as u64,
        fee_collector_usdc: (balances.fee_collector_usdc + usdc_fee) as u64,
        fee_collector_sol: (balances.fee_collector_sol + native_fee) as u64,
        gas_drop_collector_usdc: (balances.gas_drop_collector_usdc + gas_usdc) as u64,
        gas_drop_collector_sol: (balances.gas_drop_collector_sol + gas_sol) as u64,
    }
}

/// Executes one transfer atomically.
///
/// On `Err` the reported reason is exactly [`spec_transfer_abort`]'s, and
/// neither the configuration nor any balance has changed.  On `Ok` every
/// check passed, the balances moved as [`spec_balances_after`] says, the
/// nonce rose by exactly one, and the returned event and deposit-for-burn
/// arguments carry the net amount `usdc_amount - usdc_fee`.
pub fn transfer_ix(
    config: &mut Config,
    balances: &mut Balances,
    sig_data: &[u8],
    ctx: &TransferContext,
    usdc_amount: u64,
    destination_domain: u32,
    recipient: [u8; 32],
    solana_owner: [u8; 32],
    fee: u64,
    deadline: u64,
    gas_drop_amount: u64,
    fee_is_native: bool,
) -> (r: Result<(TransferEvent, DepositForBurnParams), ProgramError>)
    requires
        old(config).wf(),
        old(config).nonce < u64::MAX,
    ensures
        ({
            let abort = spec_transfer_abort(
                *old(config),
                *old(balances),
                sig_data@,
                *ctx,
                usdc_amount,
                destination_domain,
                fee,
                deadline,
                gas_drop_amount,
                fee_is_native,
            );
            match r {
                Err(e) => abort == Some(e) && *final(config) == *old(config) && *final(balances)
                    == *old(balances),
                Ok((event, burn)) => {
                    let usdc_fee = spec_usdc_fee(*old(config), usdc_amount, fee, fee_is_native);
                    let net_amount = (usdc_amount - usdc_fee) as u64;
                    &&& abort is None
                    &&& *final(config) == (Config {
                        nonce: (old(config).nonce + 1) as u64,
                        ..*old(config)
                    })
                    &&& *final(balances) == spec_balances_after(
                        *old(balances),
                        usdc_amount,
                        usdc_fee,
                        spec_native_fee(fee, fee_is_native),
                        spec_gas_sol(gas_drop_amount, fee_is_native),
                        spec_gas_usdc(gas_drop_amount, fee_is_native),
                    )
                    &&& event == (TransferEvent {
                        destination_domain,
                        nonce: (old(config).nonce + 1) as u64,
                        recipient,
                        solana_owner,
                        user: ctx.user,
                        amount: net_amount,
                        gas_drop_amount,
                        fee_is_native,
                        cctp_nonce: -1i64,
                        cctp_message: ctx.cctp_message,
                    })
                    &&& burn == (DepositForBurnParams {
                        amount: net_amount,
                        destination_domain,
                        mint_recipient: recipient,
                    })
                },
            }
        }),
{
    // Validating
    if !pubkey_eq(&ctx.token_program, &TOKEN_PROGRAM_ID) {
        return Err(ProgramError::Transfer(TransferError::InvalidTokenProgram));
    }
    let msg = TransferParams {
        local_domain: LOCAL_DOMAIN,
        destination_domain,
        fee,
        deadline,
        fee_is_native,
    };
    let msg_bytes = msg.to_bytes();
    match verify_ed25519_ix(sig_data, msg_bytes.as_slice(), &config.signer_key) {
        Err(e) => { return Err(ProgramError::Signature(e)) },
        Ok(()) => {},
    }
    if ctx.now > deadline {
        return Err(ProgramError::Transfer(TransferError::DeadlineExpired));
    }
    // Pricing
    let usdc_fee = calculate_fee(
        usdc_amount,
        config.fee_bp,
        if fee_is_native {
            0
        } else {
            fee
        },
    );
    if usdc_fee > usdc_amount {
        return Err(ProgramError::Transfer(TransferError::FeeExceedsAmount));
    }
    if fee_is_native && destination_domain as usize >= DOMAIN_TABLE_SIZE {
        return Err(ProgramError::Param(ParamError::InvalidDomain));
    }
    let limit = if fee_is_native {
        config.max_native_gas_drop[destination_domain as usize]
    } else {
        config.max_usdc_gas_drop
    };
    if limit != 0 && gas_drop_amount > limit {
        return Err(ProgramError::Transfer(TransferError::GasDropLimitExceeded));
    }
    let native_fee = if fee_is_native {
        fee
    } else {
        0
    };
    let gas_sol = if fee_is_native {
        gas_drop_amount
    } else {
        0
    };
    let gas_usdc = if fee_is_native {
        0
    } else {
        gas_drop_amount
    };
    // FeeSettlement, GasDropSettlement, PrincipalCustody: every movement
    // is established before any is committed, so a failing one leaves no
    // partial effect.
    let usdc_out = match usdc_amount.checked_add(gas_usdc) {
        Some(v) => v,
        None => { return Err(ProgramError::InsufficientFunds) },
    };
    if balances.owner_usdc < usdc_out {
        return Err(ProgramError::InsufficientFunds);
    }
    let new_fee_collector_usdc = match balances.fee_collector_usdc.checked_add(usdc_fee) {
        Some(v) => v,
        None => { return Err(ProgramError::BalanceOverflow) },
    };
    let new_gas_collector_usdc = match balances.gas_drop_collector_usdc.checked_add(gas_usdc) {
        Some(v) => v,
        None => { return Err(ProgramError::BalanceOverflow) },
    };
    let sol_out = match native_fee.checked_add(gas_sol) {
        Some(v) => v,
        None => { return Err(ProgramError::Transfer(TransferError::NativeAmountTooLow)) },
    };
    if balances.owner_sol < sol_out {
        return Err(ProgramError::Transfer(TransferError::NativeAmountTooLow));
    }
    let new_fee_collector_sol = match balances.fee_collector_sol.checked_add(native_fee) {
        Some(v) => v,
        None => { return Err(ProgramError::BalanceOverflow) },
    };
    let new_gas_collector_sol = match balances.gas_drop_collector_sol.checked_add(gas_sol) {
        Some(v) => v,
        None => { return Err(ProgramError::BalanceOverflow) },
    };
    // BridgeDelegation: the opaque call either succeeds or the whole
    // unit aborts.
    if !ctx.bridge_accepts {
        return Err(ProgramError::BridgeRejected);
    }
    // Commit
    let net_amount = usdc_amount - usdc_fee;
    balances.owner_usdc = balances.owner_usdc - usdc_out;
    balances.owner_sol = balances.owner_sol - sol_out;
    balances.fee_collector_usdc = new_fee_collector_usdc;
    balances.fee_collector_sol = new_fee_collector_sol;
    balances.gas_drop_collector_usdc = new_gas_collector_usdc;
    balances.gas_drop_collector_sol = new_gas_collector_sol;
    // Bookkeeping
    config.nonce = config.nonce + 1;
    let event = TransferEvent {
        destination_domain,
        nonce: config.nonce,
        recipient,
        solana_owner,
        user: ctx.user,
        amount: net_amount,
        gas_drop_amount,
        fee_is_native,
        cctp_nonce: -1,
        cctp_message: ctx.cctp_message,
    };
    let burn = DepositForBurnParams {
        amount: net_amount,
        destination_domain,
        mint_recipient: recipient,
    };
    Ok((event, burn))
}

/// Law: a committed settlement conserves value.  In the bridged asset,
/// what the caller paid is exactly what the two collectors received plus
/// the net amount handed to the bridge to be burned; in the native
/// currency, what the caller paid is exactly what the two collectors
/// received.
pub proof fn lemma_settlement_conserves_value(
    balances: Balances,
    usdc_amount: u64,
    usdc_fee: u64,
    native_fee: u64,
    gas_sol: u64,
    gas_usdc: u64,
)
    requires
        usdc_fee <= usdc_amount,
        balances.owner_usdc >= usdc_amount + gas_usdc,
        balances.owner_sol >= native_fee + gas_sol,
        balances.fee_collector_usdc + usdc_fee <= u64::MAX,
        balances.gas_drop_collector_usdc + gas_usdc <= u64::MAX,
        balances.fee_collector_sol + native_fee <= u64::MAX,
        balances.gas_drop_collector_sol + gas_sol <= u64::MAX,
    ensures
        ({
            let after = spec_balances_after(
                balances,
                usdc_amount,
                usdc_fee,
                native_fee,
                gas_sol,
                gas_usdc,
            );
            &&& balances.owner_usdc - after.owner_usdc == (after.fee_collector_usdc
                - balances.fee_collector_usdc) + (after.gas_drop_collector_usdc
                - balances.gas_drop_collector_usdc) + (usdc_amount - usdc_fee)
            &&& balances.owner_sol - after.owner_sol == (after.fee_collector_sol
                - balances.fee_collector_sol) + (after.gas_drop_collector_sol
                - balances.gas_drop_collector_sol)
        }),
{
}

/// Law: a request whose deadline lies in the past never commits,
/// whatever the other parameters and balances.  (Which error it reports
/// depends on the gates checked first: see
/// [`lemma_expired_deadline_reports_deadline_expired`].)
pub proof fn lemma_expired_deadline_never_commits(
    config: Config,
    balances: Balances,
    sig_data: Seq<u8>,
    ctx: TransferContext,
    usdc_amount: u64,
    destination_domain: u32,
    fee: u64,
    deadline: u64,
    gas_drop_amount: u64,
    fee_is_native: bool,
)
    requires
        ctx.now > deadline,
    ensures
        spec_transfer_abort(
            config,
            balances,
            sig_data,
            ctx,
            usdc_amount,
            destination_domain,
            fee,
            deadline,
            gas_drop_amount,
            fee_is_native,
        ) is Some,
{
}

/// Law: once the token-program and authorization gates pass, an expired
/// deadline aborts with exactly the deadline-expired condition,
/// regardless of amounts, limits and balances.
pub proof fn lemma_expired_deadline_reports_deadline_expired(
    config: Config,
    balances: Balances,
    sig_data: Seq<u8>,
    ctx: TransferContext,
    usdc_amount: u64,
    destination_domain: u32,
    fee: u64,
    deadline: u64,
    gas_drop_amount: u64,
    fee_is_native: bool,
)
    requires
        ctx.token_program == TOKEN_PROGRAM_ID,
        spec_verify(
            sig_data,
            spec_authorization_bytes(destination_domain, fee, deadline, fee_is_native),
            config.signer_key@,
        ) is Ok,
        ctx.now > deadline,
    ensures
        spec_transfer_abort(
            config,
            balances,
            sig_data,
            ctx,
            usdc_amount,
            destination_domain,
            fee,
            deadline,
            gas_drop_amount,
            fee_is_native,
        ) == Some(ProgramError::Transfer(TransferError::DeadlineExpired)),
{
}

/// Law: a fee exceeding the principal never lets the transfer commit,
/// so no fund movement occurs (the `Err` postcondition of
/// [`transfer_ix`] leaves every balance unchanged).
pub proof fn lemma_fee_exceeding_amount_never_commits(
    config: Config,
    balances: Balances,
    sig_data: Seq<u8>,
    ctx: TransferContext,
    usdc_amount: u64,
    destination_domain: u32,
    fee: u64,
    deadline: u64,
    gas_drop_amount: u64,
    fee_is_native: bool,
)
    requires
        spec_usdc_fee(config, usdc_amount, fee, fee_is_native) > usdc_amount,
    ensures
        spec_transfer_abort(
            config,
            balances,
            sig_data,
            ctx,
            usdc_amount,
            destination_domain,
            fee,
            deadline,
            gas_drop_amount,
            fee_is_native,
        ) is Some,
{
}

/// Law: once the token-program, authorization and deadline gates pass, a
/// fee exceeding the principal aborts with exactly the
/// fee-exceeds-amount condition.
pub proof fn lemma_fee_exceeding_amount_reports_fee_exceeds_amount(
    config: Config,
    balances: Balances,
    sig_data: Seq<u8>,
    ctx: TransferContext,
    usdc_amount: u64,
    destination_domain: u32,
    fee: u64,
    deadline: u64,
    gas_drop_amount: u64,
    fee_is_native: bool,
)
    requires
        ctx.token_program == TOKEN_PROGRAM_ID,
        spec_verify(
            sig_data,
            spec_authorization_bytes(destination_domain, fee, deadline, fee_is_native),
            config.signer_key@,
        ) is Ok,
        ctx.now <= deadline,
        spec_usdc_fee(config, usdc_amount, fee, fee_is_native) > usdc_amount,
    ensures
        spec_transfer_abort(
            config,
            balances,
            sig_data,
            ctx,
            usdc_amount,
            destination_domain,
            fee,
            deadline,
            gas_drop_amount,
            fee_is_native,
        ) == Some(ProgramError::Transfer(TransferError::FeeExceedsAmount)),
{
}

/// Law: once every earlier gate passes, a gas drop above the applicable
/// nonzero limit aborts with exactly the gas-drop-limit-exceeded
/// condition.
pub proof fn lemma_gas_drop_over_limit_reports_limit_exceeded(
    config: Config,
    balances: Balances,
    sig_data: Seq<u8>,
    ctx: TransferContext,
    usdc_amount: u64,
    destination_domain: u32,
    fee: u64,
    deadline: u64,
    gas_drop_amount: u64,
    fee_is_native: bool,
)
    requires
        ctx.token_program == TOKEN_PROGRAM_ID,
        spec_verify(
            sig_data,
            spec_authorization_bytes(destination_domain, fee, deadline, fee_is_native),
            config.signer_key@,
        ) is Ok,
        ctx.now <= deadline,
        spec_usdc_fee(config, usdc_amount, fee, fee_is_native) <= usdc_amount,
        fee_is_native ==> destination_domain < DOMAIN_TABLE_SIZE,
        spec_gas_drop_limit(config, destination_domain, fee_is_native) != 0,
        gas_drop_amount > spec_gas_drop_limit(config, destination_domain, fee_is_native),
    ensures
        spec_transfer_abort(
            config,
            balances,
            sig_data,
            ctx,
            usdc_amount,
            destination_domain,
            fee,
            deadline,
            gas_drop_amount,
            fee_is_native,
        ) == Some(ProgramError::Transfer(TransferError::GasDropLimitExceeded)),
{
}

/// Law: an applicable limit of zero permits any gas-drop amount: the
/// gas-drop-limit-exceeded condition is then never reported, whatever
/// the rest of the request.
pub proof fn lemma_zero_limit_permits_any_gas_drop(
    config: Config,
    balances: Balances,
    sig_data: Seq<u8>,
    ctx: TransferContext,
    usdc_amount: u64,
    destination_domain: u32,
    fee: u64,
    deadline: u64,
    gas_drop_amount: u64,
    fee_is_native: bool,
)
    requires
        spec_gas_drop_limit(config, destination_domain, fee_is_native) == 0,
    ensures
        spec_transfer_abort(
            config,
            balances,
            sig_data,
            ctx,
            usdc_amount,
            destination_domain,
            fee,
            deadline,
            gas_drop_amount,
            fee_is_native,
        ) != Some(ProgramError::Transfer(TransferError::GasDropLimitExceeded)),
{
}

/// Law: if the bridge refuses the deposit-for-burn call, the unit never
/// commits; by the `Err` postcondition of [`transfer_ix`], no fee,
/// gas-drop or custody movement performed earlier in the same request
/// remains.
pub proof fn lemma_bridge_refusal_never_commits(
    config: Config,
    balances: Balances,
    sig_data: Seq<u8>,
    ctx: TransferContext,
    usdc_amount: u64,
    destination_domain: u32,
    fee: u64,
    deadline: u64,
    gas_drop_amount: u64,
    fee_is_native: bool,
)
    requires
        !ctx.bridge_accepts,
    ensures
        spec_transfer_abort(
            config,
            balances,
            sig_data,
            ctx,
            usdc_amount,
            destination_domain,
            fee,
            deadline,
            gas_drop_amount,
            fee_is_native,
        ) is Some,
{
}

} // verus!
