//! Data model of the guard: the market snapshot, the oracle observation, the
//! account records the liquidation path searches, and the guard-rail
//! configuration.
//!
//! All prices, confidence bands and thresholds are fixed-point integers; the
//! scale constants live in [`crate::amm`].

use vstd::prelude::*;

verus! {

/// A 32-byte ledger account address, held as four 64-bit words. The guard
/// reads an address only to compare it for equality.
#[derive(Clone, Copy, Debug, PartialEq, Eq, Structural)]
pub struct OracleAddress {
    pub w0: u64,
    pub w1: u64,
    pub w2: u64,
    pub w3: u64,
}

/// Health flag published by a price feed alongside each observation.
#[derive(Clone, Copy, Debug, PartialEq, Eq, Structural)]
pub enum OracleStatus {
    /// The feed reports normal operation.
    Trading,
    /// The feed reports that trading in the underlying is halted.
    Halted,
    /// The feed marks its own data as unreliable.
    Unreliable,
}

/// Which feed status values the venue accepts as healthy.
#[derive(Clone, Copy, Debug, PartialEq, Eq, Structural)]
pub struct AcceptedOracleStatuses {
    pub trading: bool,
    pub halted: bool,
    pub unreliable: bool,
}

/// One oracle price observation, as decoded from the feed's account data.
///
/// `price` and `confidence` are fixed-point values at scale
/// [`crate::amm::PRICE_PRECISION`]; `publish_slot` is the logical time the
/// observation was published.
#[derive(Clone, Copy, Debug)]
pub struct OracleSnapshot {
    pub price: i64,
    pub confidence: u64,
    pub publish_slot: u64,
    pub status: OracleStatus,
}

/// A candidate ledger account supplied by the caller: its address and, when
/// its bytes could be decoded as a price record, the decoded observation.
/// `snapshot == None` marks an account whose bytes are not a readable price
/// record.
#[derive(Clone, Copy, Debug)]
pub struct AccountRecord {
    pub address: OracleAddress,
    pub snapshot: Option<OracleSnapshot>,
}

/// Read-only snapshot of one market's automated market maker: the oracle it
/// is configured to use, the virtual reserves its mark price is computed
/// from, and the short-window reference price it maintains.
///
/// `peg_multiplier` is fixed-point at scale [`crate::amm::PEG_PRECISION`];
/// `last_mark_price_twap` is a price at scale
/// [`crate::amm::PRICE_PRECISION`]; `last_mark_price_twap_ts` is the slot at
/// which that reference was last synchronized.
#[derive(Clone, Copy, Debug)]
pub struct Amm {
    pub oracle: OracleAddress,
    pub base_asset_reserve: u128,
    pub quote_asset_reserve: u128,
    pub peg_multiplier: u128,
    pub last_mark_price_twap: u64,
    pub last_mark_price_twap_ts: u64,
}

/// Validity thresholds for a single oracle observation.
///
/// `max_confidence_ratio` and `max_jump_ratio` are fixed-point ratios at
/// scale [`crate::amm::RATIO_PRECISION`]; `max_staleness_slots` is a count
/// of slots.
#[derive(Clone, Copy, Debug)]
pub struct ValidityGuardRails {
    pub max_staleness_slots: u64,
    pub max_confidence_ratio: u64,
    pub max_jump_ratio: u64,
    pub accepted: AcceptedOracleStatuses,
}

/// Divergence threshold between mark and oracle price: the largest accepted
/// magnitude of the spread percentage, at scale
/// [`crate::amm::SPREAD_PRECISION`] per percent.
#[derive(Clone, Copy, Debug)]
pub struct PriceDivergenceGuardRails {
    pub mark_oracle_divergence_pct: u64,
}

/// Administrator-set configuration of the guard, immutable for the duration
/// of a check. When `use_for_liquidations` is false the liquidation path is
/// bypassed entirely: oracle distrust never blocks a liquidation.
#[derive(Clone, Copy, Debug)]
pub struct OracleGuardRails {
    pub use_for_liquidations: bool,
    pub validity: ValidityGuardRails,
    pub price_divergence: PriceDivergenceGuardRails,
}

} // verus!
