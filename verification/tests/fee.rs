use cashmere_cctp::instructions::get_fee::get_fee_ix;
use cashmere_cctp::instructions::initialize::initialize_ix;
use cashmere_cctp::utils::fee::calculate_fee;

#[test]
fn fee_exact_values() {
    // 1 bp of 1_000_000, no flat part.
    assert_eq!(calculate_fee(1_000_000, 1, 0), 100);
    // 100% of 1 plus a flat 1.
    assert_eq!(calculate_fee(1, 10_000, 1), 2);
    // Rounding down.
    assert_eq!(calculate_fee(9_999, 1, 0), 0);
    assert_eq!(calculate_fee(19_999, 1, 7), 8);
}

#[test]
fn fee_zero_policy_charges_nothing() {
    assert_eq!(calculate_fee(0, 0, 0), 0);
    assert_eq!(calculate_fee(u64::MAX, 0, 0), 0);
    assert_eq!(calculate_fee(123_456_789, 0, 0), 0);
}

#[test]
fn fee_monotonic_samples() {
    // Non-decreasing in the amount.
    assert!(calculate_fee(1_000, 250, 3) <= calculate_fee(2_000, 250, 3));
    // Non-decreasing in the percentage.
    assert!(calculate_fee(77_000, 10, 3) <= calculate_fee(77_000, 11, 3));
    // The percentage product does not overflow 64 bits internally.
    assert_eq!(calculate_fee(u64::MAX, 10_000, 0), u64::MAX);
    assert_eq!(calculate_fee(u64::MAX, 5_000, 0), u64::MAX / 2);
}

#[test]
fn fee_saturates_at_u64_max() {
    assert_eq!(calculate_fee(u64::MAX, 10_000, 1), u64::MAX);
    assert_eq!(calculate_fee(u64::MAX, 10_000, u64::MAX), u64::MAX);
}

#[test]
fn get_fee_uses_configured_fee_bp() {
    let (mut config, _custodian) = initialize_ix(&[1u8; 32], [2u8; 32], [3u8; 32], [4u8; 32], [5u8; 32], 255);
    // Freshly initialized: one basis point, flat part passed through.
    assert_eq!(get_fee_ix(&config, 0, 1_000_000), 100);
    assert_eq!(get_fee_ix(&config, 7, 1_000_000), 107);
    config.fee_bp = 10_000;
    assert_eq!(get_fee_ix(&config, 0, 44), 44);
}
