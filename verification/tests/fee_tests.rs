//! The fee calculator's documented values and failure mode.

use marketx::errors::EscrowError;
use marketx::fee::{compute_net, MAX_AMOUNT};

#[test]
fn fee_values_from_the_rate_table() {
    // 2.5% of 300 floors to 7, of 100 to 2
    assert_eq!(compute_net(300, 250), Ok((293, 7)));
    assert_eq!(compute_net(100, 250), Ok((98, 2)));
}

#[test]
fn fee_edge_rates() {
    assert_eq!(compute_net(300, 0), Ok((300, 0)));
    assert_eq!(compute_net(300, 10_000), Ok((0, 300)));
    assert_eq!(compute_net(0, 10_000), Ok((0, 0)));
    // rounding is always down: 1 at 9_999 bps keeps its single unit
    assert_eq!(compute_net(1, 9_999), Ok((1, 0)));
}

#[test]
fn fee_above_hundred_percent_fails() {
    assert_eq!(compute_net(300, 10_100), Err(EscrowError::FeeTooHigh));
    // a tiny amount can survive a rate just over 100% by flooring
    assert_eq!(compute_net(5, 10_001), Ok((0, 5)));
    assert_eq!(compute_net(MAX_AMOUNT, 20_000), Err(EscrowError::FeeTooHigh));
}
