//! Guard decision engine: decides, for one market, whether a forced
//! liquidation or a funding-rate update must be blocked because the price
//! oracle cannot currently be trusted.
//!
//! An operation is blocked when the oracle observation is invalid or the
//! mark price diverges too far from the oracle price. The liquidation entry
//! point first locates the market's configured oracle among the account
//! records supplied by the caller, and never blocks at all when the guard
//! rails disable oracle use for liquidations; funding-rate updates are
//! always oracle-gated.

use crate::amm::{calculate_oracle_mark_spread_pct, is_oracle_mark_too_divergent, is_oracle_valid,
    mark_price_of, oracle_valid, spread_feasible, spread_pct_of, spread_too_divergent};
use crate::error::{ClearingHouseResult, ErrorCode};
use crate::state::{AccountRecord, Amm, OracleAddress, OracleGuardRails};
use vstd::prelude::*;

verus! {

/// Outcome of the shared decision routine on one oracle account record:
/// a decode failure for an unreadable account; otherwise block when the
/// observation is invalid (divergence of an already-invalid price is moot),
/// or when the spread — computable exactly because the observation is valid,
/// unless the fixed-point arithmetic leaves its range — is too divergent.
pub open spec fn block_operation_spec(
    amm: Amm,
    oracle_account: AccountRecord,
    clock_slot: u64,
    guard_rails: OracleGuardRails,
) -> ClearingHouseResult<bool> {
    match oracle_account.snapshot {
        None => Err(ErrorCode::OracleDecodeError),
        Some(snapshot) => if !oracle_valid(amm, snapshot, clock_slot, guard_rails.validity) {
            Ok(true)
        } else if !spread_feasible(amm, snapshot.price as int) {
            Err(ErrorCode::MathError)
        } else {
            Ok(
                spread_too_divergent(
                    spread_pct_of(mark_price_of(amm), snapshot.price as int),
                    guard_rails.price_divergence.mark_oracle_divergence_pct as int,
                ),
            )
        },
    }
}

/// No record among the first `n` carries the target address.
pub open spec fn no_oracle_match(
    records: Seq<AccountRecord>,
    target: OracleAddress,
    n: int,
) -> bool {
    forall|k: int| 0 <= k < n ==> records[k].address != target
}

/// `i` is the index of the first record carrying the target address.
pub open spec fn is_first_oracle_match(
    records: Seq<AccountRecord>,
    target: OracleAddress,
    i: int,
) -> bool {
    &&& 0 <= i < records.len()
    &&& records[i].address == target
    &&& no_oracle_match(records, target, i)
}

fn block_operation(
    amm: &Amm,
    oracle_account: &AccountRecord,
    clock_slot: u64,
    guard_rails: &OracleGuardRails,
) -> (r: ClearingHouseResult<bool>)
    ensures
        r == block_operation_spec(*amm, *oracle_account, clock_slot, *guard_rails),
{
    let oracle_is_valid = match is_oracle_valid(
        amm,
        oracle_account,
        clock_slot,
        &guard_rails.validity,
    ) {
        Ok(v) => v,
        Err(e) => {
            return Err(e);
        },
    };
    if !oracle_is_valid {
        return Ok(true);
    }
    let snapshot = match oracle_account.snapshot {
        Some(s) => s,
        None => {
            return Err(ErrorCode::OracleDecodeError);
        },
    };
    let oracle_mark_spread_pct = match calculate_oracle_mark_spread_pct(amm, &snapshot) {
        Ok(s) => s,
        Err(e) => {
            return Err(e);
        },
    };
    let too_divergent = is_oracle_mark_too_divergent(
        oracle_mark_spread_pct,
        &guard_rails.price_divergence,
    );
    Ok(too_divergent)
}

/// Decides whether a forced liquidation on this market must be blocked.
///
/// When the guard rails disable oracle use for liquidations the answer is
/// `false` — never block — before any oracle is even located: a deliberate
/// escape hatch, not a validity judgment. Otherwise the market's configured
/// oracle account is looked up among the supplied records (the first record
/// carrying its address decides); a missing oracle is fatal for the call.
pub fn block_liquidation(
    amm: &Amm,
    account_records: &Vec<AccountRecord>,
    clock_slot: u64,
    guard_rails: &OracleGuardRails,
) -> (r: ClearingHouseResult<bool>)
    ensures
        !guard_rails.use_for_liquidations ==> r == Ok::<bool, ErrorCode>(false),
        guard_rails.use_for_liquidations && no_oracle_match(
            account_records@,
            amm.oracle,
            account_records@.len() as int,
        ) ==> r == Err::<bool, ErrorCode>(ErrorCode::OracleNotFound),
        forall|i: int|
            guard_rails.use_for_liquidations && #[trigger] is_first_oracle_match(
                account_records@,
                amm.oracle,
                i,
            ) ==> r == block_operation_spec(*amm, account_records@[i], clock_slot, *guard_rails),
{
    if !guard_rails.use_for_liquidations {
        return Ok(false);
    }

    let n = account_records.len();
    let mut idx: usize = 0;
    while idx < n
        invariant
            guard_rails.use_for_liquidations,
            n == account_records@.len(),
            idx <= n,
            no_oracle_match(account_records@, amm.oracle, idx as int),
        decreases n - idx,
    {
        let record = account_records[idx];
        if record.address == amm.oracle {
            proof {
                assert forall|i: int|
                    is_first_oracle_match(account_records@, amm.oracle, i) implies i == idx by {
                    if i < idx {
                        assert(account_records@[i].address != amm.oracle);
                    } else if i > idx {
                        assert(account_records@[idx as int].address != amm.oracle);
                    }
                }
            }
            return block_operation(amm, &record, clock_slot, guard_rails);
        }
        idx = idx + 1;
    }
    Err(ErrorCode::OracleNotFound)
}

/// Decides whether a funding-rate update on this market must be blocked.
/// The oracle account record is supplied directly — no lookup by address —
/// and there is no bypass: funding-rate updates are always oracle-gated.
pub fn block_funding_rate_update(
    amm: &Amm,
    oracle_account: &AccountRecord,
    clock_slot: u64,
    guard_rails: &OracleGuardRails,
) -> (r: ClearingHouseResult<bool>)
    ensures
        r == block_operation_spec(*amm, *oracle_account, clock_slot, *guard_rails),
{
    block_operation(amm, oracle_account, clock_slot, guard_rails)
}

/// The shared decision routine reads only the validity thresholds and the
/// divergence threshold of the guard rails: the liquidation bypass flag
/// never affects the funding-rate gate, whose result is exactly this
/// routine's.
pub proof fn lemma_liquidation_flag_does_not_affect_funding(
    amm: Amm,
    oracle_account: AccountRecord,
    clock_slot: u64,
    rails_a: OracleGuardRails,
    rails_b: OracleGuardRails,
)
    requires
        rails_a.validity == rails_b.validity,
        rails_a.price_divergence == rails_b.price_divergence,
    ensures
        block_operation_spec(amm, oracle_account, clock_slot, rails_a)
            == block_operation_spec(amm, oracle_account, clock_slot, rails_b),
{
}

} // verus!
