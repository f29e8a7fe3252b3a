//! Fee calculator: split a gross amount into the net part owed to the
//! recipient and the fee part owed to the fee collector.

use vstd::prelude::*;
use vstd::arithmetic::mul::{
    lemma_mul_inequality, lemma_mul_is_commutative, lemma_mul_nonnegative,
    lemma_mul_strict_inequality_converse,
};
use vstd::arithmetic::div_mod::{
    lemma_div_by_multiple, lemma_div_is_ordered, lemma_div_multiples_vanish_fancy,
    lemma_div_pos_is_pos,
};
use crate::errors::EscrowError;

verus! {

/// Basis points denominator: a fee rate of 10_000 bps is 100%.
pub const BPS_DENOM: i128 = 10_000;

/// The fee taken from `amount` at `fee_bps` basis points, rounded down.
pub open spec fn spec_fee(amount: int, fee_bps: int) -> int {
    amount * fee_bps / (10_000 as int)
}

/// The net part left once the fee is taken.
pub open spec fn spec_net(amount: int, fee_bps: int) -> int {
    amount - spec_fee(amount, fee_bps)
}

/// Largest balance the escrow accepts: `floor(i128::MAX / 10_000)`, so that
/// `amount * fee_bps` stays in range for every rate up to 10_000 bps.
pub const MAX_AMOUNT: i128 = 17_014_118_346_046_923_173_168_730_371_588_410;

/// For a non-negative amount the fee is non-negative, and it never exceeds
/// the amount while the rate is at most 10_000 bps.
pub proof fn lemma_fee_bounds(amount: int, fee_bps: int)
    requires
        amount >= 0,
        fee_bps >= 0,
    ensures
        spec_fee(amount, fee_bps) >= 0,
        fee_bps <= 10_000 ==> spec_fee(amount, fee_bps) <= amount,
        fee_bps <= 10_000 ==> 0 <= spec_net(amount, fee_bps) <= amount,
{
    lemma_mul_nonnegative(amount, fee_bps);
    lemma_div_pos_is_pos(amount * fee_bps, 10_000);
    if fee_bps <= 10_000 {
        lemma_mul_inequality(fee_bps, 10_000, amount);
        lemma_mul_is_commutative(fee_bps, amount);
        lemma_mul_is_commutative(10_000, amount);
        lemma_div_is_ordered(amount * fee_bps, amount * 10_000, 10_000);
        lemma_div_by_multiple(amount, 10_000);
    }
}

/// When `amount * fee_bps` leaves the `i128` range the fee alone would exceed
/// the amount, so the net part is negative.
proof fn lemma_fee_overflow(amount: int, fee_bps: int)
    requires
        0 <= amount <= MAX_AMOUNT as int,
        0 <= fee_bps <= u32::MAX as int,
        amount * fee_bps > i128::MAX as int,
    ensures
        spec_net(amount, fee_bps) < 0,
{
    let p = amount * fee_bps;
    let m = i128::MAX as int;
    // fee >= floor((i128::MAX + 1) / 10_000) == MAX_AMOUNT
    lemma_div_is_ordered(m + 1, p, 10_000);
    assert(m + 1 == 10_000 * (MAX_AMOUNT as int) + 5_728);
    lemma_div_multiples_vanish_fancy(MAX_AMOUNT as int, 5_728, 10_000);
    assert(spec_fee(amount, fee_bps) >= MAX_AMOUNT as int);
    if amount == MAX_AMOUNT as int {
        // the rate is above 10_000 bps, so the fee strictly exceeds the amount
        assert(10_000 * amount <= m);
        lemma_mul_is_commutative(amount, 10_000);
        assert(amount * 10_000 < p);
        lemma_mul_is_commutative(amount, fee_bps);
        lemma_mul_strict_inequality_converse(10_000, fee_bps, amount);
        assert(fee_bps >= 10_001);
        lemma_mul_inequality(10_001, fee_bps, amount);
        lemma_mul_is_commutative(10_001, amount);
        assert(p >= amount * 10_001);
        assert(amount * 10_001 == amount * 10_000 + amount);
        assert(10_000 * (amount + 1) <= amount * 10_000 + amount);
        lemma_div_is_ordered(10_000 * (amount + 1), p, 10_000);
        lemma_mul_is_commutative(10_000, amount + 1);
        lemma_div_by_multiple(amount + 1, 10_000);
        assert(spec_fee(amount, fee_bps) >= amount + 1);
    }
}

/// Splits `amount` into `(net, fee)` with `fee = floor(amount * fee_bps / 10_000)`.
///
/// Rounding is always down, so the net part is favoured and the fee parts of a
/// distribution never exceed the rate applied to its total.  Fails with
/// `FeeTooHigh` exactly when the net part would be negative, which is only
/// reachable for rates above 10_000 bps.
pub fn compute_net(amount: i128, fee_bps: u32) -> (r: Result<(i128, i128), EscrowError>)
    requires
        0 <= amount <= MAX_AMOUNT,
    ensures
        spec_net(amount as int, fee_bps as int) >= 0 ==> (r matches Ok(p)
            && p.0 == spec_net(amount as int, fee_bps as int)
            && p.1 == spec_fee(amount as int, fee_bps as int)),
        spec_net(amount as int, fee_bps as int) < 0 ==> r === Err(EscrowError::FeeTooHigh),
        r matches Ok(p) ==> 0 <= p.1 && 0 <= p.0 && p.0 + p.1 == amount,
        fee_bps <= 10_000 ==> (r matches Ok(p) && p.1 <= amount),
{
    proof {
        lemma_fee_bounds(amount as int, fee_bps as int);
    }
    match amount.checked_mul(fee_bps as i128) {
        None => {
            proof {
                lemma_fee_overflow(amount as int, fee_bps as int);
            }
            Err(EscrowError::FeeTooHigh)
        },
        Some(p) => {
            proof {
                lemma_div_pos_is_pos(p as int, 10_000);
                lemma_div_is_ordered(p as int, i128::MAX as int, 10_000);
            }
            let fee: i128 = p / BPS_DENOM;
            let net: i128 = amount - fee;
            if net < 0 {
                Err(EscrowError::FeeTooHigh)
            } else {
                Ok((net, fee))
            }
        },
    }
}

} // verus!
