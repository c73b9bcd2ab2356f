//! Oracle trust gate for a derivatives trading venue.
//!
//! Before the venue performs a risk-sensitive operation — a forced
//! liquidation or a funding-rate update — it asks this library whether the
//! market's price oracle may currently be trusted. The guard inspects one
//! oracle observation (price, confidence band, publish slot, feed status),
//! compares the venue's own mark price against the oracle price, and blocks
//! the operation when the observation is invalid or the two price sources
//! diverge too much. Every decision is a pure function of the market
//! snapshot, the oracle snapshot, the current slot and the configured guard
//! rails.

pub mod amm;
pub mod error;
pub mod oracle;
pub mod state;
