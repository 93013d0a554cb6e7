//! Settlement core of a cross-chain token bridge.
//!
//! The library authorizes, prices, and atomically executes a transfer that
//! burns a bridged asset on the local ledger and requests its re-mint on a
//! destination ledger through an external bridging protocol.  It covers:
//!
//! - verification that a transfer request carries a valid off-chain-issued
//!   authorization (`utils::ed25519`),
//! - protocol fee and gas-drop pricing under configurable limits
//!   (`utils::fee`),
//! - the all-or-nothing orchestration of the fund movements and the
//!   delegation to the external bridge (`instructions::transfer`),
//! - the owner-gated configuration setters (`instructions::admin`).
//!
//! The hosting execution environment (account resolution, the native
//! signature-check precompile, the clock, the token ledger, and the bridge
//! program itself) stays outside: every function here works on the plain
//! values that environment hands in, and states exactly what it decides.

pub mod cctp;
pub mod errors;
pub mod events;
pub mod instructions;
pub mod state;
pub mod utils;
