//! Numeric components of the guard: the mark price of a market, the validity
//! of one oracle observation, and the mark–oracle spread.
//!
//! Every quantity is a fixed-point integer with an explicit scale, and every
//! comparison puts the same scale on both sides. Multiplications and
//! divisions that could leave the representable range are checked and fail
//! with [`ErrorCode::MathError`] instead of wrapping.

use crate::error::{ClearingHouseResult, ErrorCode};
use crate::state::{AcceptedOracleStatuses, AccountRecord, Amm, OracleSnapshot, OracleStatus,
    ValidityGuardRails};
use vstd::prelude::*;

verus! {

/// Fixed-point scale of prices and confidence bands: a price of 1.0 is
/// stored as `PRICE_PRECISION`.
pub const PRICE_PRECISION: u128 = 1_000_000;

/// Fixed-point scale of a market's peg multiplier.
pub const PEG_PRECISION: u128 = 1_000;

/// Factor that lifts a peg-scaled quantity to price scale
/// (`PRICE_PRECISION / PEG_PRECISION`).
pub const PRICE_TO_PEG_PRECISION_RATIO: u128 = PRICE_PRECISION / PEG_PRECISION;

/// Fixed-point scale of the confidence and price-jump ratios in
/// [`ValidityGuardRails`]: a ratio of 1.0 is stored as `RATIO_PRECISION`.
pub const RATIO_PRECISION: u128 = 1_000_000;

/// Fixed-point scale of spread percentages: a spread of 1% is stored as
/// `SPREAD_PRECISION`.
pub const SPREAD_PRECISION: u128 = 1_000_000;

/// Multiplier that turns a price difference over a price into a scaled
/// percentage: 100 percentage points at `SPREAD_PRECISION` each.
pub const SPREAD_PCT_FACTOR: u128 = 100 * SPREAD_PRECISION;

/// The mark price of a market at scale [`PRICE_PRECISION`], from its virtual
/// reserves: `quote_asset_reserve * peg_multiplier * PRICE_TO_PEG_PRECISION_RATIO
/// / base_asset_reserve`.
pub open spec fn mark_price_of(amm: Amm) -> int {
    amm.quote_asset_reserve * amm.peg_multiplier * PRICE_TO_PEG_PRECISION_RATIO
        / (amm.base_asset_reserve as int)
}

/// Whether the mark price of `amm` can be computed in 128-bit arithmetic:
/// the reserves are not degenerate and the scaled numerator fits.
pub open spec fn mark_price_feasible(amm: Amm) -> bool {
    &&& amm.base_asset_reserve != 0
    &&& amm.quote_asset_reserve * amm.peg_multiplier <= u128::MAX
    &&& amm.quote_asset_reserve * amm.peg_multiplier * PRICE_TO_PEG_PRECISION_RATIO <= u128::MAX
}

/// Computes the market's mark price from its virtual reserves, independent
/// of any oracle.
pub fn compute_mark_price(amm: &Amm) -> (r: ClearingHouseResult<u128>)
    ensures
        r is Ok <==> mark_price_feasible(*amm),
        r matches Ok(p) ==> p == mark_price_of(*amm),
        r is Err ==> r == Err::<u128, ErrorCode>(ErrorCode::MathError),
{
    let pegged_quote = match amm.quote_asset_reserve.checked_mul(amm.peg_multiplier) {
        Some(n) => n,
        None => {
            return Err(ErrorCode::MathError);
        },
    };
    let numerator = match pegged_quote.checked_mul(PRICE_TO_PEG_PRECISION_RATIO) {
        Some(n) => n,
        None => {
            return Err(ErrorCode::MathError);
        },
    };
    match numerator.checked_div(amm.base_asset_reserve) {
        Some(p) => Ok(p),
        None => Err(ErrorCode::MathError),
    }
}

/// Slots elapsed since an observation was published. An observation whose
/// publish slot lies ahead of the current slot counts as fresh (staleness 0).
pub open spec fn staleness_of(current_slot: u64, publish_slot: u64) -> int {
    if publish_slot <= current_slot {
        current_slot - publish_slot
    } else {
        0
    }
}

/// Whether the venue accepts observations carrying this feed status.
pub open spec fn status_accepted(accepted: AcceptedOracleStatuses, status: OracleStatus) -> bool {
    match status {
        OracleStatus::Trading => accepted.trading,
        OracleStatus::Halted => accepted.halted,
        OracleStatus::Unreliable => accepted.unreliable,
    }
}

/// Distance between two integers.
pub open spec fn abs_diff(a: int, b: int) -> int {
    if a >= b {
        a - b
    } else {
        b - a
    }
}

/// Whether one oracle observation is trustworthy in isolation: its price is
/// positive, it is fresh, its confidence band is small relative to its
/// price, its feed status is accepted, and its price has not jumped too far
/// from the market's short-window reference price. Both ratio comparisons
/// are cross-multiplied so that no division (and no truncation) occurs.
pub open spec fn oracle_valid(
    amm: Amm,
    snapshot: OracleSnapshot,
    clock_slot: u64,
    validity: ValidityGuardRails,
) -> bool {
    &&& snapshot.price > 0
    &&& staleness_of(clock_slot, snapshot.publish_slot) <= validity.max_staleness_slots
    &&& snapshot.confidence * RATIO_PRECISION <= validity.max_confidence_ratio * snapshot.price
    &&& status_accepted(validity.accepted, snapshot.status)
    &&& abs_diff(snapshot.price as int, amm.last_mark_price_twap as int) * RATIO_PRECISION
        <= validity.max_jump_ratio * amm.last_mark_price_twap
}

/// Outcome of the validity check on one account record: a decode failure for
/// an unreadable account, otherwise the validity verdict on its observation.
pub open spec fn is_oracle_valid_spec(
    amm: Amm,
    oracle_account: AccountRecord,
    clock_slot: u64,
    validity: ValidityGuardRails,
) -> ClearingHouseResult<bool> {
    match oracle_account.snapshot {
        None => Err(ErrorCode::OracleDecodeError),
        Some(snapshot) => Ok(oracle_valid(amm, snapshot, clock_slot, validity)),
    }
}

/// Checks one oracle observation against the validity guard rails. Fails
/// only when the account's bytes were not a readable price record; every
/// readable observation gets a verdict, never an arithmetic error.
pub fn is_oracle_valid(
    amm: &Amm,
    oracle_account: &AccountRecord,
    clock_slot: u64,
    validity: &ValidityGuardRails,
) -> (r: ClearingHouseResult<bool>)
    ensures
        r == is_oracle_valid_spec(*amm, *oracle_account, clock_slot, *validity),
{
    let snapshot = match oracle_account.snapshot {
        None => {
            return Err(ErrorCode::OracleDecodeError);
        },
        Some(s) => s,
    };
    if snapshot.price <= 0 {
        return Ok(false);
    }
    let price = snapshot.price as u128;

    let staleness: u64 = if clock_slot >= snapshot.publish_slot {
        clock_slot - snapshot.publish_slot
    } else {
        0
    };
    let fresh_enough = staleness <= validity.max_staleness_slots;

    proof {
        assert((validity.max_confidence_ratio as u128) * price <= u128::MAX)
            by (nonlinear_arith)
            requires
                validity.max_confidence_ratio <= u64::MAX,
                price <= i64::MAX,
        ;
    }
    let confident_enough = (snapshot.confidence as u128) * RATIO_PRECISION
        <= (validity.max_confidence_ratio as u128) * price;

    let status_ok = match snapshot.status {
        OracleStatus::Trading => validity.accepted.trading,
        OracleStatus::Halted => validity.accepted.halted,
        OracleStatus::Unreliable => validity.accepted.unreliable,
    };

    let twap = amm.last_mark_price_twap as u128;
    let jump = if price >= twap {
        price - twap
    } else {
        twap - price
    };
    proof {
        assert((validity.max_jump_ratio as u128) * twap <= u128::MAX)
            by (nonlinear_arith)
            requires
                validity.max_jump_ratio <= u64::MAX,
                twap <= u64::MAX,
        ;
    }
    let jump_small_enough = jump * RATIO_PRECISION <= (validity.max_jump_ratio as u128) * twap;

    Ok(fresh_enough && confident_enough && status_ok && jump_small_enough)
}

/// Signed spread between a mark price and an oracle price, as a percentage
/// of the oracle price at scale [`SPREAD_PRECISION`]:
/// `(mark - oracle) * SPREAD_PCT_FACTOR / oracle`, truncated toward zero.
/// The sign records the direction (positive when the mark price is above the
/// oracle price); only the magnitude gates a decision.
pub open spec fn spread_pct_of(mark_price: int, oracle_price: int) -> int {
    if mark_price >= oracle_price {
        (mark_price - oracle_price) * SPREAD_PCT_FACTOR / oracle_price
    } else {
        -((oracle_price - mark_price) * SPREAD_PCT_FACTOR / oracle_price)
    }
}

/// Whether the spread between mark and oracle price can be computed in
/// 128-bit arithmetic: the oracle price is positive (it is the divisor), the
/// mark price is computable, and — when the mark price lies above the oracle
/// price — the scaled difference and the resulting percentage fit. A mark
/// price below the oracle price always fits: its scaled difference is below
/// `i64::MAX * SPREAD_PCT_FACTOR`.
pub open spec fn spread_feasible(amm: Amm, oracle_price: int) -> bool {
    &&& oracle_price > 0
    &&& mark_price_feasible(amm)
    &&& mark_price_of(amm) >= oracle_price ==> {
        &&& (mark_price_of(amm) - oracle_price) * SPREAD_PCT_FACTOR <= u128::MAX
        &&& (mark_price_of(amm) - oracle_price) * SPREAD_PCT_FACTOR / oracle_price <= i128::MAX
    }
}

/// Computes the signed mark–oracle spread percentage for a market. Fails
/// with [`ErrorCode::MathError`] when the oracle price is not positive or
/// the fixed-point computation leaves the representable range.
pub fn calculate_oracle_mark_spread_pct(
    amm: &Amm,
    snapshot: &OracleSnapshot,
) -> (r: ClearingHouseResult<i128>)
    ensures
        r is Ok <==> spread_feasible(*amm, snapshot.price as int),
        r matches Ok(s) ==> s == spread_pct_of(mark_price_of(*amm), snapshot.price as int),
        r is Err ==> r == Err::<i128, ErrorCode>(ErrorCode::MathError),
{
    let mark_price = match compute_mark_price(amm) {
        Ok(p) => p,
        Err(e) => {
            return Err(e);
        },
    };
    if snapshot.price <= 0 {
        return Err(ErrorCode::MathError);
    }
    let oracle_price = snapshot.price as u128;

    if mark_price >= oracle_price {
        let scaled = match (mark_price - oracle_price).checked_mul(SPREAD_PCT_FACTOR) {
            Some(n) => n,
            None => {
                return Err(ErrorCode::MathError);
            },
        };
        let pct = scaled / oracle_price;
        if pct > i128::MAX as u128 {
            return Err(ErrorCode::MathError);
        }
        Ok(pct as i128)
    } else {
        let scaled = (oracle_price - mark_price) * SPREAD_PCT_FACTOR;
        let pct = scaled / oracle_price;
        proof {
            vstd::arithmetic::div_mod::lemma_div_nonincreasing(
                scaled as int,
                oracle_price as int,
            );
        }
        Ok(-(pct as i128))
    }
}

/// Whether a spread percentage is too large in magnitude: strictly above the
/// configured threshold in either direction.
pub open spec fn spread_too_divergent(spread_pct: int, threshold: int) -> bool {
    spread_pct > threshold || spread_pct < -threshold
}

/// Compares the magnitude of a signed spread percentage against the
/// divergence threshold, both at scale [`SPREAD_PRECISION`].
pub fn is_oracle_mark_too_divergent(
    oracle_mark_spread_pct: i128,
    price_divergence: &crate::state::PriceDivergenceGuardRails,
) -> (r: bool)
    ensures
        r == spread_too_divergent(
            oracle_mark_spread_pct as int,
            price_divergence.mark_oracle_divergence_pct as int,
        ),
{
    let threshold = price_divergence.mark_oracle_divergence_pct as i128;
    oracle_mark_spread_pct > threshold || oracle_mark_spread_pct < -threshold
}

/// An oracle observation whose confidence band exceeds the configured ratio
/// of its own price is never valid, whatever the other checks say.
pub proof fn lemma_excessive_confidence_invalidates(
    amm: Amm,
    snapshot: OracleSnapshot,
    clock_slot: u64,
    validity: ValidityGuardRails,
)
    requires
        snapshot.confidence * RATIO_PRECISION > validity.max_confidence_ratio * snapshot.price,
    ensures
        !oracle_valid(amm, snapshot, clock_slot, validity),
{
}

/// An oracle observation published more than `max_staleness_slots` slots ago
/// is never valid, whatever the other checks say.
pub proof fn lemma_stale_oracle_invalidates(
    amm: Amm,
    snapshot: OracleSnapshot,
    clock_slot: u64,
    validity: ValidityGuardRails,
)
    requires
        clock_slot - snapshot.publish_slot > validity.max_staleness_slots,
    ensures
        !oracle_valid(amm, snapshot, clock_slot, validity),
{
}

/// An oracle observation with a non-positive price is never valid. The
/// validity checks divide by nothing — both ratio bounds are
/// cross-multiplied — so a zero price cannot make a divisor zero.
pub proof fn lemma_nonpositive_price_invalidates(
    amm: Amm,
    snapshot: OracleSnapshot,
    clock_slot: u64,
    validity: ValidityGuardRails,
)
    requires
        snapshot.price <= 0,
    ensures
        !oracle_valid(amm, snapshot, clock_slot, validity),
{
}

/// A mark price equal to the oracle price gives a spread of exactly zero,
/// for every positive price.
pub proof fn lemma_equal_prices_zero_spread(price: int)
    requires
        price > 0,
    ensures
        spread_pct_of(price, price) == 0,
{
    vstd::arithmetic::div_mod::lemma_basic_div(0, price);
}

} // verus!
