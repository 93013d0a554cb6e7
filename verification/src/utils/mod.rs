//! Leaf helpers of the settlement core: fee arithmetic and the
//! authorization verifier.

pub mod ed25519;
pub mod fee;

pub use ed25519::verify_ed25519_ix;
pub use fee::calculate_fee;
