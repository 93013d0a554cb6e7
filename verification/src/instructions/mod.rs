//! One entry point per operation of the settlement core.

pub mod admin;
pub mod get_fee;
pub mod initialize;
pub mod transfer;
