//! Price-oracle validation: staleness checks, manipulation detection,
//! price-tolerance validation, and the cache-fallback decision.  The host
//! fetches prices from the oracle contract and hands them in as plain
//! values.

use vstd::prelude::*;
use crate::fee::MAX_AMOUNT;
use crate::market::Error;

verus! {

/// Largest price magnitude the deviation check accepts: half of
/// [`MAX_AMOUNT`], so that the difference of two prices times 10_000 bps
/// stays inside the `i128` range.
pub const MAX_PRICE: i128 = 8_507_059_173_023_461_586_584_365_185_794_205;

/// A price together with the time it was observed.
#[derive(Clone, Copy, Debug, PartialEq, Eq, Structural)]
pub struct PriceData {
    pub price: i128,
    pub timestamp: u64,
}

/// Whether a price recorded at `pt` is older than `threshold` seconds at
/// time `ct`.  A price from the future is not stale.
pub open spec fn spec_stale(pt: u64, ct: u64, threshold: u64) -> bool {
    if ct >= pt {
        ct - pt > threshold
    } else {
        false
    }
}

/// The deviation of `current` from `twap` in basis points, rounded down.
pub open spec fn spec_deviation(current: int, twap: int) -> int {
    (if current >= twap { current - twap } else { twap - current }) * 10_000 / twap
}

/// Whether `current` deviates from a positive `twap` by more than
/// `threshold_bps` basis points.  A zero or negative average detects
/// nothing.
pub open spec fn spec_manipulated(current: int, twap: int, threshold_bps: int) -> bool {
    twap > 0 && spec_deviation(current, twap) > threshold_bps
}

/// Whether `product_price` lies within `tolerance_bps` basis points of a
/// positive `oracle_price`: the window is the oracle price plus or minus
/// `floor(oracle_price * tolerance_bps / 10_000)`.
pub open spec fn spec_in_tolerance(oracle_price: int, product_price: int, tolerance_bps: int) -> bool {
    let t = crate::fee::spec_fee(oracle_price, tolerance_bps);
    oracle_price - t <= product_price <= oracle_price + t
}

/// Oracle validation: pure checks on prices the host fetched.
pub struct OracleService;

impl OracleService {
    /// Whether a price recorded at `price_timestamp` is older than
    /// `threshold` seconds at `current_timestamp`.
    pub fn is_price_stale(price_timestamp: u64, current_timestamp: u64, threshold: u64) -> (r: bool)
        ensures
            r == spec_stale(price_timestamp, current_timestamp, threshold),
    {
        let age = if current_timestamp >= price_timestamp {
            current_timestamp - price_timestamp
        } else {
            0
        };
        age > threshold
    }

    /// Whether `current_price` deviates from the time-weighted average by
    /// more than `threshold_bps` basis points.  With no meaningful average
    /// (zero or negative) nothing is flagged.
    pub fn detect_manipulation(current_price: i128, twap: i128, threshold_bps: u32) -> (r: bool)
        requires
            -MAX_PRICE <= current_price <= MAX_PRICE,
            -MAX_PRICE <= twap <= MAX_PRICE,
        ensures
            r == spec_manipulated(current_price as int, twap as int, threshold_bps as int),
    {
        if twap <= 0 {
            return false;
        }
        let diff = if current_price >= twap { current_price - twap } else { twap - current_price };
        proof {
            vstd::arithmetic::mul::lemma_mul_nonnegative(diff as int, 10_000);
            vstd::arithmetic::mul::lemma_mul_inequality(diff as int, MAX_AMOUNT as int, 10_000);
            assert(MAX_AMOUNT as int * 10_000 <= i128::MAX as int);
            vstd::arithmetic::div_mod::lemma_div_pos_is_pos(diff as int * 10_000, twap as int);
            vstd::arithmetic::div_mod::lemma_div_is_ordered(
                diff as int * 10_000,
                i128::MAX as int,
                twap as int,
            );
        }
        let deviation = diff * 10_000 / twap;
        deviation > threshold_bps as i128
    }

    /// Validates a proposed product price against the oracle price: inside
    /// the tolerance window it passes; outside, or beyond the `i128`
    /// range, it is rejected with `PriceOutOfRange`.  A zero or negative
    /// oracle price validates nothing and passes everything.
    pub fn validate_product_price(oracle_price: i128, product_price: u128, tolerance_bps: u32) -> (r: Result<(), Error>)
        requires
            oracle_price <= MAX_AMOUNT,
            tolerance_bps <= 10_000,
        ensures
            oracle_price <= 0 ==> r is Ok,
            oracle_price > 0 && product_price > i128::MAX as u128
                ==> r === Err(Error::PriceOutOfRange),
            oracle_price > 0 && product_price <= i128::MAX as u128 ==> (
                if spec_in_tolerance(oracle_price as int, product_price as int, tolerance_bps as int) {
                    r is Ok
                } else {
                    r === Err(Error::PriceOutOfRange)
                }
            ),
    {
        if oracle_price <= 0 {
            return Ok(());
        }
        if product_price > i128::MAX as u128 {
            return Err(Error::PriceOutOfRange);
        }
        let product_price_i128 = product_price as i128;
        proof {
            crate::fee::lemma_fee_bounds(oracle_price as int, tolerance_bps as int);
            vstd::arithmetic::mul::lemma_mul_nonnegative(oracle_price as int, tolerance_bps as int);
            vstd::arithmetic::mul::lemma_mul_upper_bound(
                oracle_price as int,
                MAX_AMOUNT as int,
                tolerance_bps as int,
                10_000,
            );
            assert(MAX_AMOUNT as int * 10_000 <= i128::MAX as int);
        }
        let tolerance = oracle_price * (tolerance_bps as i128) / 10_000;
        let min_price = oracle_price - tolerance;
        let max_price = oracle_price + tolerance;
        if product_price_i128 < min_price || product_price_i128 > max_price {
            return Err(Error::PriceOutOfRange);
        }
        Ok(())
    }
}

/// What [`resolve_price`] decides, stated over plain values: the
/// enable gate, the update-frequency cache window, the staleness check with
/// its cache fallback, and the manipulation check, in that order.
pub open spec fn spec_resolve_price(
    is_enabled: bool,
    staleness_threshold: u64,
    price_deviation_threshold: u32,
    update_frequency: u64,
    last_update: u64,
    now: u64,
    oracle_price: Option<PriceData>,
    twap: Option<i128>,
    cached: Option<PriceData>,
) -> Result<PriceData, Error> {
    if !is_enabled {
        Err(Error::OracleNotConfigured)
    } else if update_frequency > 0
        && (if now >= last_update { now - last_update } else { 0 }) < update_frequency
        && cached is Some {
        Ok(cached->Some_0)
    } else {
        match oracle_price {
            None => Err(Error::OraclePriceUnavailable),
            Some(p) => if spec_stale(p.timestamp, now, staleness_threshold) {
                match cached {
                    Some(c) => if !spec_stale(c.timestamp, now, staleness_threshold) {
                        Ok(c)
                    } else {
                        Err(Error::OraclePriceStale)
                    },
                    None => Err(Error::OraclePriceStale),
                }
            } else if price_deviation_threshold > 0 && twap is Some
                && spec_manipulated(p.price as int, twap->Some_0 as int, price_deviation_threshold as int) {
                Err(Error::OraclePriceManipulated)
            } else {
                Ok(p)
            },
        }
    }
}

/// Decides which price a fetch returns: the cached one inside the
/// update-frequency window, the fresh oracle price if it is neither stale
/// nor manipulated, the cached one as a fallback while it is still fresh,
/// and the matching error otherwise.  The host reads the oracle and the
/// cache; this function owns the decision.
pub fn resolve_price(
    is_enabled: bool,
    staleness_threshold: u64,
    price_deviation_threshold: u32,
    update_frequency: u64,
    last_update: u64,
    now: u64,
    oracle_price: Option<PriceData>,
    twap: Option<i128>,
    cached: Option<PriceData>,
) -> (r: Result<PriceData, Error>)
    requires
        oracle_price matches Some(p) ==> -MAX_PRICE <= p.price <= MAX_PRICE,
        twap matches Some(t) ==> -MAX_PRICE <= t <= MAX_PRICE,
    ensures
        r == spec_resolve_price(
            is_enabled,
            staleness_threshold,
            price_deviation_threshold,
            update_frequency,
            last_update,
            now,
            oracle_price,
            twap,
            cached,
        ),
{
    if !is_enabled {
        return Err(Error::OracleNotConfigured);
    }
    if update_frequency > 0 {
        let elapsed = if now >= last_update { now - last_update } else { 0 };
        if elapsed < update_frequency {
            if let Some(c) = cached {
                return Ok(c);
            }
        }
    }
    let p = match oracle_price {
        None => {
            return Err(Error::OraclePriceUnavailable);
        },
        Some(p) => p,
    };
    if OracleService::is_price_stale(p.timestamp, now, staleness_threshold) {
        match cached {
            Some(c) => {
                if !OracleService::is_price_stale(c.timestamp, now, staleness_threshold) {
                    return Ok(c);
                }
                return Err(Error::OraclePriceStale);
            },
            None => {
                return Err(Error::OraclePriceStale);
            },
        }
    }
    if price_deviation_threshold > 0 {
        if let Some(t) = twap {
            if OracleService::detect_manipulation(p.price, t, price_deviation_threshold) {
                return Err(Error::OraclePriceManipulated);
            }
        }
    }
    Ok(p)
}

/// Converts `amount` between two assets by the ratio of their oracle
/// prices, rounding down: `amount * from_price / to_price`.  A zero
/// target price cannot convert; a product outside the `i128` range fails
/// with `FeeOverflow`.
pub fn convert_price(amount: i128, from_price: i128, to_price: i128) -> (r: Result<i128, Error>)
    requires
        amount >= 0,
        from_price >= 0,
        to_price >= 0,
    ensures
        to_price == 0 ==> r === Err(Error::OraclePriceUnavailable),
        to_price > 0 && amount * from_price > i128::MAX as int ==> r === Err(Error::FeeOverflow),
        to_price > 0 && amount * from_price <= i128::MAX as int
            ==> r === Ok((amount * from_price / to_price as int) as i128),
{
    if to_price == 0 {
        return Err(Error::OraclePriceUnavailable);
    }
    proof {
        vstd::arithmetic::mul::lemma_mul_nonnegative(amount as int, from_price as int);
    }
    match amount.checked_mul(from_price) {
        None => Err(Error::FeeOverflow),
        Some(p) => {
            proof {
                vstd::arithmetic::div_mod::lemma_div_pos_is_pos(p as int, to_price as int);
                vstd::arithmetic::div_mod::lemma_div_is_ordered(
                    p as int,
                    i128::MAX as int,
                    to_price as int,
                );
            }
            Ok(p / to_price)
        },
    }
}

} // verus!
