//! Failures a gate call can surface to its caller.

use vstd::prelude::*;

verus! {

/// A fatal condition for the current call. The caller must refuse the
/// requested operation; there is nothing to retry or roll back.
#[derive(Clone, Copy, Debug, PartialEq, Eq, Structural)]
pub enum ErrorCode {
    /// The oracle account configured for the market is absent from the
    /// account records supplied by the caller.
    OracleNotFound,
    /// An oracle account's bytes could not be read as a price record.
    OracleDecodeError,
    /// A fixed-point computation left the representable range.
    MathError,
}

/// Result type shared by every fallible operation of the guard.
pub type ClearingHouseResult<T> = Result<T, ErrorCode>;

} // verus!
