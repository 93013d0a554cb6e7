//! Error taxonomy.  Every failure aborts the whole atomic unit: none is
//! retried internally and none leaves a partial effect behind.

use vstd::prelude::*;

verus! {

/// Failures of the authorization verifier.
#[derive(Clone, Copy, Debug, PartialEq, Eq)]
pub enum SignatureVerificationError {
    /// The companion signature-check operation is absent or was not run
    /// by the native precompile.
    NotSigVerified,
    /// A declaring-instruction index points outside the companion
    /// operation itself.
    InvalidSignatureData,
    /// The offsets header is internally inconsistent: a declared field
    /// does not fit the companion operation's data.
    InvalidDataFormat,
    /// The companion operation's data is shorter than the offsets header.
    LessDataThanExpected,
    /// An epoch field exceeds the representable range.
    EpochTooLarge,
    /// The declared message lies out of bounds or differs from the
    /// expected authorization bytes.
    InvalidMessageData,
    /// The declared public key differs from the configured signer key.
    InvalidSignature,
}

/// Policy violations of a transfer request.
#[derive(Clone, Copy, Debug, PartialEq, Eq)]
pub enum TransferError {
    /// The authorization's deadline lies in the past.
    DeadlineExpired,
    /// The caller-supplied token program handle is not the bridged
    /// asset's token program.
    InvalidTokenProgram,
    /// The requested gas drop exceeds the applicable nonzero limit.
    GasDropLimitExceeded,
    /// The computed fee exceeds the principal amount.
    FeeExceedsAmount,
    /// The caller's native balance cannot cover the flat fee and the
    /// gas drop.
    NativeAmountTooLow,
}

/// Configuration errors of the administrative paths.
#[derive(Clone, Copy, Debug, PartialEq, Eq)]
pub enum ParamError {
    /// A percentage fee above 100%.
    FeeTooHigh,
    /// A destination domain outside the per-domain limit table.
    InvalidDomain,
}

/// Any reason the atomic unit aborts, as reported to the caller: one
/// failure code per aborted request.
#[derive(Clone, Copy, Debug, PartialEq, Eq)]
pub enum ProgramError {
    /// The transfer authorization did not verify.
    Signature(SignatureVerificationError),
    /// A transfer policy was violated.
    Transfer(TransferError),
    /// An administrative parameter was rejected.
    Param(ParamError),
    /// A mutating operation was invoked by someone other than the
    /// configured owner.
    NotOwner,
    /// The caller's bridged-asset balance cannot cover the requested
    /// movements.
    InsufficientFunds,
    /// A collector's balance would exceed the representable range.
    BalanceOverflow,
    /// The external bridge refused the deposit-for-burn call.
    BridgeRejected,
}

} // verus!
