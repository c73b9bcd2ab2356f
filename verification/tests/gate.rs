//! Scenario tests for the oracle trust gate: the two public entry points,
//! the validity checks, the mark-price and spread arithmetic, and every
//! error variant.

use oracle_guard::amm::{calculate_oracle_mark_spread_pct, compute_mark_price,
    is_oracle_mark_too_divergent, is_oracle_valid};
use oracle_guard::error::ErrorCode;
use oracle_guard::oracle::{block_funding_rate_update, block_liquidation};
use oracle_guard::state::{AcceptedOracleStatuses, AccountRecord, Amm, OracleAddress,
    OracleGuardRails, OracleSnapshot, OracleStatus, PriceDivergenceGuardRails,
    ValidityGuardRails};

const CURRENT_SLOT: u64 = 1000;

fn oracle_address() -> OracleAddress {
    OracleAddress { w0: 1, w1: 2, w2: 3, w3: 4 }
}

fn other_address() -> OracleAddress {
    OracleAddress { w0: 9, w1: 9, w2: 9, w3: 9 }
}

/// A market whose mark price is exactly 100.0 (100_000_000 at price scale),
/// with a short-window reference price of 100.0.
fn nominal_amm() -> Amm {
    Amm {
        oracle: oracle_address(),
        base_asset_reserve: 1_000_000,
        quote_asset_reserve: 1_000_000,
        peg_multiplier: 100_000,
        last_mark_price_twap: 100_000_000,
        last_mark_price_twap_ts: 900,
    }
}

/// Staleness at most 10 slots, confidence at most 2% of price, price jump at
/// most 10% of the reference, only the Trading status accepted, divergence
/// at most 1%.
fn nominal_rails() -> OracleGuardRails {
    OracleGuardRails {
        use_for_liquidations: true,
        validity: ValidityGuardRails {
            max_staleness_slots: 10,
            max_confidence_ratio: 20_000,
            max_jump_ratio: 100_000,
            accepted: AcceptedOracleStatuses { trading: true, halted: false, unreliable: false },
        },
        price_divergence: PriceDivergenceGuardRails { mark_oracle_divergence_pct: 1_000_000 },
    }
}

/// Price 100.0, confidence 0.01, published this slot, healthy feed.
fn nominal_snapshot() -> OracleSnapshot {
    OracleSnapshot {
        price: 100_000_000,
        confidence: 10_000,
        publish_slot: CURRENT_SLOT,
        status: OracleStatus::Trading,
    }
}

fn record(snapshot: OracleSnapshot) -> AccountRecord {
    AccountRecord { address: oracle_address(), snapshot: Some(snapshot) }
}

#[test]
fn liquidation_bypass_when_flag_disabled() {
    let mut rails = nominal_rails();
    rails.use_for_liquidations = false;
    // No oracle account is supplied at all, and the decision is still
    // "never block": the bypass precedes the lookup.
    let records: Vec<AccountRecord> = Vec::new();
    let r = block_liquidation(&nominal_amm(), &records, CURRENT_SLOT, &rails);
    assert_eq!(r, Ok(false));
}

#[test]
fn liquidation_allows_nominal_oracle() {
    let records = vec![
        AccountRecord { address: other_address(), snapshot: None },
        record(nominal_snapshot()),
    ];
    let r = block_liquidation(&nominal_amm(), &records, CURRENT_SLOT, &nominal_rails());
    assert_eq!(r, Ok(false));
}

#[test]
fn funding_allows_nominal_oracle() {
    let r = block_funding_rate_update(
        &nominal_amm(),
        &record(nominal_snapshot()),
        CURRENT_SLOT,
        &nominal_rails(),
    );
    assert_eq!(r, Ok(false));
}

#[test]
fn funding_blocks_divergent_oracle() {
    // Oracle price 10% above the mark price: still a valid observation, but
    // far beyond the 1% divergence threshold.
    let mut snapshot = nominal_snapshot();
    snapshot.price = 110_000_000;
    let valid = is_oracle_valid(
        &nominal_amm(),
        &record(snapshot),
        CURRENT_SLOT,
        &nominal_rails().validity,
    );
    assert_eq!(valid, Ok(true));
    let r = block_funding_rate_update(
        &nominal_amm(),
        &record(snapshot),
        CURRENT_SLOT,
        &nominal_rails(),
    );
    assert_eq!(r, Ok(true));
}

#[test]
fn funding_blocks_stale_oracle() {
    // Published max_staleness_slots + 1 slots ago, all else nominal.
    let mut snapshot = nominal_snapshot();
    snapshot.publish_slot = CURRENT_SLOT - 11;
    let r = block_funding_rate_update(
        &nominal_amm(),
        &record(snapshot),
        CURRENT_SLOT,
        &nominal_rails(),
    );
    assert_eq!(r, Ok(true));
}

#[test]
fn liquidation_fails_without_oracle_account() {
    let records = vec![AccountRecord { address: other_address(), snapshot: Some(nominal_snapshot()) }];
    let r = block_liquidation(&nominal_amm(), &records, CURRENT_SLOT, &nominal_rails());
    assert_eq!(r, Err(ErrorCode::OracleNotFound));
}

#[test]
fn funding_ignores_liquidation_bypass_flag() {
    // The same invalid (stale) observation, with the liquidation bypass
    // switched off: the funding path must still block.
    let mut rails = nominal_rails();
    rails.use_for_liquidations = false;
    let mut snapshot = nominal_snapshot();
    snapshot.publish_slot = CURRENT_SLOT - 11;
    let r = block_funding_rate_update(&nominal_amm(), &record(snapshot), CURRENT_SLOT, &rails);
    assert_eq!(r, Ok(true));
}

#[test]
fn excessive_confidence_invalidates() {
    // Confidence 3.0 on a price of 100.0 is a 3% band, above the 2% bound.
    let mut snapshot = nominal_snapshot();
    snapshot.confidence = 3_000_000;
    let valid = is_oracle_valid(
        &nominal_amm(),
        &record(snapshot),
        CURRENT_SLOT,
        &nominal_rails().validity,
    );
    assert_eq!(valid, Ok(false));
}

#[test]
fn stale_observation_invalidates() {
    let mut snapshot = nominal_snapshot();
    snapshot.publish_slot = CURRENT_SLOT - 11;
    let valid = is_oracle_valid(
        &nominal_amm(),
        &record(snapshot),
        CURRENT_SLOT,
        &nominal_rails().validity,
    );
    assert_eq!(valid, Ok(false));
}

#[test]
fn nonpositive_price_invalidates() {
    let mut snapshot = nominal_snapshot();
    snapshot.price = 0;
    let zero = is_oracle_valid(
        &nominal_amm(),
        &record(snapshot),
        CURRENT_SLOT,
        &nominal_rails().validity,
    );
    assert_eq!(zero, Ok(false));
    snapshot.price = -5_000_000;
    let negative = is_oracle_valid(
        &nominal_amm(),
        &record(snapshot),
        CURRENT_SLOT,
        &nominal_rails().validity,
    );
    assert_eq!(negative, Ok(false));
}

#[test]
fn rejected_status_invalidates() {
    let mut snapshot = nominal_snapshot();
    snapshot.status = OracleStatus::Halted;
    let halted = is_oracle_valid(
        &nominal_amm(),
        &record(snapshot),
        CURRENT_SLOT,
        &nominal_rails().validity,
    );
    assert_eq!(halted, Ok(false));
    let mut rails = nominal_rails();
    rails.validity.accepted.halted = true;
    let accepted = is_oracle_valid(&nominal_amm(), &record(snapshot), CURRENT_SLOT, &rails.validity);
    assert_eq!(accepted, Ok(true));
}

#[test]
fn price_jump_from_reference_invalidates() {
    // Twice the short-window reference price: a 100% jump against a 10% bound.
    let mut snapshot = nominal_snapshot();
    snapshot.price = 200_000_000;
    let valid = is_oracle_valid(
        &nominal_amm(),
        &record(snapshot),
        CURRENT_SLOT,
        &nominal_rails().validity,
    );
    assert_eq!(valid, Ok(false));
}

#[test]
fn future_published_observation_is_fresh() {
    let mut snapshot = nominal_snapshot();
    snapshot.publish_slot = CURRENT_SLOT + 5;
    let valid = is_oracle_valid(
        &nominal_amm(),
        &record(snapshot),
        CURRENT_SLOT,
        &nominal_rails().validity,
    );
    assert_eq!(valid, Ok(true));
}

#[test]
fn unreadable_oracle_account_is_decode_error() {
    let unreadable = AccountRecord { address: oracle_address(), snapshot: None };
    let funding = block_funding_rate_update(&nominal_amm(), &unreadable, CURRENT_SLOT, &nominal_rails());
    assert_eq!(funding, Err(ErrorCode::OracleDecodeError));
    let records = vec![unreadable];
    let liquidation = block_liquidation(&nominal_amm(), &records, CURRENT_SLOT, &nominal_rails());
    assert_eq!(liquidation, Err(ErrorCode::OracleDecodeError));
}

#[test]
fn first_matching_record_decides() {
    let mut stale = nominal_snapshot();
    stale.publish_slot = CURRENT_SLOT - 11;
    let records = vec![record(stale), record(nominal_snapshot())];
    let r = block_liquidation(&nominal_amm(), &records, CURRENT_SLOT, &nominal_rails());
    assert_eq!(r, Ok(true));
}

#[test]
fn mark_price_from_reserves() {
    assert_eq!(compute_mark_price(&nominal_amm()), Ok(100_000_000));
}

#[test]
fn mark_price_overflow_is_math_error() {
    let mut amm = nominal_amm();
    amm.quote_asset_reserve = u128::MAX;
    amm.peg_multiplier = 2;
    assert_eq!(compute_mark_price(&amm), Err(ErrorCode::MathError));
    // The same failure surfaces through the guard once the oracle itself is
    // found valid.
    let r = block_funding_rate_update(&amm, &record(nominal_snapshot()), CURRENT_SLOT, &nominal_rails());
    assert_eq!(r, Err(ErrorCode::MathError));
}

#[test]
fn zero_base_reserve_is_math_error() {
    let mut amm = nominal_amm();
    amm.base_asset_reserve = 0;
    assert_eq!(compute_mark_price(&amm), Err(ErrorCode::MathError));
}

#[test]
fn equal_prices_give_zero_spread() {
    let spread = calculate_oracle_mark_spread_pct(&nominal_amm(), &nominal_snapshot());
    assert_eq!(spread, Ok(0));
}

#[test]
fn spread_exact_values() {
    // Oracle 10% above mark: (100 - 110) / 110 in scaled percent, truncated.
    let mut snapshot = nominal_snapshot();
    snapshot.price = 110_000_000;
    let below = calculate_oracle_mark_spread_pct(&nominal_amm(), &snapshot);
    assert_eq!(below, Ok(-9_090_909));
    // Oracle 10% below mark: (100 - 90) / 90 in scaled percent, truncated.
    snapshot.price = 90_000_000;
    let above = calculate_oracle_mark_spread_pct(&nominal_amm(), &snapshot);
    assert_eq!(above, Ok(11_111_111));
}

#[test]
fn nonpositive_oracle_price_spread_is_math_error() {
    let mut snapshot = nominal_snapshot();
    snapshot.price = 0;
    let spread = calculate_oracle_mark_spread_pct(&nominal_amm(), &snapshot);
    assert_eq!(spread, Err(ErrorCode::MathError));
}

#[test]
fn spread_overflow_is_math_error() {
    // An astronomic mark price against an oracle price of one price unit:
    // the scaled difference no longer fits 128 bits.
    let mut amm = nominal_amm();
    amm.quote_asset_reserve = 1_000_000_000_000_000_000_000_000_000_000;
    amm.peg_multiplier = 1_000;
    amm.base_asset_reserve = 1_000;
    let mut snapshot = nominal_snapshot();
    snapshot.price = 1;
    let spread = calculate_oracle_mark_spread_pct(&amm, &snapshot);
    assert_eq!(spread, Err(ErrorCode::MathError));
}

#[test]
fn spread_magnitude_beyond_i128_is_math_error() {
    // The scaled difference fits 128 bits but the resulting percentage does
    // not fit a signed 128-bit value.
    let mut amm = nominal_amm();
    amm.quote_asset_reserve = 2_000_000_000_000_000_000_000_000;
    amm.peg_multiplier = 1_000;
    amm.base_asset_reserve = 1;
    let mut snapshot = nominal_snapshot();
    snapshot.price = 1;
    let spread = calculate_oracle_mark_spread_pct(&amm, &snapshot);
    assert_eq!(spread, Err(ErrorCode::MathError));
}

#[test]
fn divergence_is_strict_and_symmetric() {
    let rails = PriceDivergenceGuardRails { mark_oracle_divergence_pct: 1_000_000 };
    assert!(!is_oracle_mark_too_divergent(1_000_000, &rails));
    assert!(!is_oracle_mark_too_divergent(-1_000_000, &rails));
    assert!(is_oracle_mark_too_divergent(1_000_001, &rails));
    assert!(is_oracle_mark_too_divergent(-1_000_001, &rails));
}
