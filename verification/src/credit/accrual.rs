//! Lazy interest accrual: a line's interest is checkpointed when it is
//! changed, folding the interest earned since the last checkpoint into both
//! its utilization and its accrued interest.

use vstd::prelude::*;
use crate::credit::types::{CreditLineData, ContractError};

verus! {

/// Seconds in the 365-day year over which annual rates apply.
pub const SECONDS_PER_YEAR: i128 = 31_536_000;

/// Denominator of simple interest: basis points times seconds per year.
pub const INTEREST_DENOMINATOR: i128 = 315_360_000_000;

/// Simple interest on `utilized` at `rate_bps` per year for `elapsed`
/// seconds, rounded down.
pub open spec fn spec_interest(utilized: int, rate_bps: int, elapsed: int) -> int {
    utilized * rate_bps * elapsed / 315_360_000_000int
}

/// What `apply_accrual` does: the checkpointed line, or `Overflow`.
///
/// No time passing (or time going backwards) leaves the line as it is; with
/// no debt or a zero rate only the checkpoint moves; otherwise the interest
/// is added to utilization and accrued interest alike.
pub open spec fn spec_apply_accrual(line: CreditLineData, now: u64) -> Result<CreditLineData, ContractError> {
    if now <= line.last_accrual_ts {
        Ok(line)
    } else if line.utilized_amount <= 0 || line.interest_rate_bps == 0 {
        Ok(CreditLineData { last_accrual_ts: now, ..line })
    } else {
        let elapsed = now - line.last_accrual_ts;
        let product = line.utilized_amount * line.interest_rate_bps * elapsed;
        let interest = spec_interest(line.utilized_amount as int, line.interest_rate_bps as int, elapsed);
        if product > i128::MAX {
            Err(ContractError::Overflow)
        } else if line.utilized_amount + interest > i128::MAX || line.accrued_interest + interest > i128::MAX {
            Err(ContractError::Overflow)
        } else {
            Ok(CreditLineData {
                utilized_amount: (line.utilized_amount + interest) as i128,
                accrued_interest: (line.accrued_interest + interest) as i128,
                last_accrual_ts: now,
                ..line
            })
        }
    }
}

/// Checkpoint the interest of `line` at time `now`.
pub fn apply_accrual(line: CreditLineData, now: u64) -> (r: Result<CreditLineData, ContractError>)
    ensures
        r == spec_apply_accrual(line, now),
{
    if now <= line.last_accrual_ts {
        return Ok(line);
    }
    if line.utilized_amount <= 0 || line.interest_rate_bps == 0 {
        return Ok(CreditLineData { last_accrual_ts: now, ..line });
    }
    let elapsed = now - line.last_accrual_ts;
    let u = line.utilized_amount;
    let r = line.interest_rate_bps as i128;
    let e = elapsed as i128;
    proof {
        assert(u * r <= u * r * e && 0 < u * r) by (nonlinear_arith)
            requires u > 0, r > 0, e >= 1;
    }
    let ur = match u.checked_mul(r) {
        Some(x) => x,
        None => return Err(ContractError::Overflow),
    };
    let product = match ur.checked_mul(e) {
        Some(x) => x,
        None => return Err(ContractError::Overflow),
    };
    proof {
        assert(0 <= product / 315_360_000_000 <= product) by (nonlinear_arith)
            requires product > 0;
    }
    let interest = product / INTEREST_DENOMINATOR;
    let utilized_amount = match u.checked_add(interest) {
        Some(x) => x,
        None => return Err(ContractError::Overflow),
    };
    let accrued_interest = match line.accrued_interest.checked_add(interest) {
        Some(x) => x,
        None => return Err(ContractError::Overflow),
    };
    Ok(CreditLineData { utilized_amount, accrued_interest, last_accrual_ts: now, ..line })
}

/// Accrual never lowers utilization, adds the same interest to utilization
/// and accrued interest, and changes nothing but those and the checkpoint.
pub proof fn lemma_accrual_adds_interest(line: CreditLineData, now: u64)
    requires
        spec_apply_accrual(line, now) is Ok,
    ensures
        ({
            let after = spec_apply_accrual(line, now)->Ok_0;
            &&& after.utilized_amount >= line.utilized_amount
            &&& after.utilized_amount - line.utilized_amount == after.accrued_interest - line.accrued_interest
            &&& after == (CreditLineData {
                utilized_amount: after.utilized_amount,
                accrued_interest: after.accrued_interest,
                last_accrual_ts: after.last_accrual_ts,
                ..line
            })
            &&& after.last_accrual_ts >= line.last_accrual_ts
        }),
{
    if now > line.last_accrual_ts && line.utilized_amount > 0 && line.interest_rate_bps != 0 {
        let elapsed = now - line.last_accrual_ts;
        assert(0 <= spec_interest(line.utilized_amount as int, line.interest_rate_bps as int, elapsed)) by (nonlinear_arith)
            requires line.utilized_amount > 0, line.interest_rate_bps > 0, elapsed > 0;
    }
}

/// Checkpointing is idempotent: a second checkpoint at the same time (or
/// earlier) changes nothing, so only the first mutation after time passes
/// adds interest.
pub proof fn lemma_accrual_checkpoint_idempotent(line: CreditLineData, now: u64)
    requires
        spec_apply_accrual(line, now) is Ok,
    ensures
        spec_apply_accrual(spec_apply_accrual(line, now)->Ok_0, now) == spec_apply_accrual(line, now),
{
}

/// Interest accrues at the line's rate: after a checkpoint with time
/// elapsed, debt and a non-zero rate, utilization and accrued interest have
/// both grown by the simple interest for the elapsed time.
pub proof fn lemma_accrual_is_simple_interest(line: CreditLineData, now: u64)
    requires
        spec_apply_accrual(line, now) is Ok,
        now > line.last_accrual_ts,
        line.utilized_amount > 0,
        line.interest_rate_bps > 0,
    ensures
        ({
            let after = spec_apply_accrual(line, now)->Ok_0;
            let interest = spec_interest(line.utilized_amount as int, line.interest_rate_bps as int, now - line.last_accrual_ts);
            &&& after.utilized_amount == line.utilized_amount + interest
            &&& after.accrued_interest == line.accrued_interest + interest
            &&& after.last_accrual_ts == now
        }),
{
}

} // verus!
