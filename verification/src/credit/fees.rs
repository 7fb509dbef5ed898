//! Flat late fees: a repayment that covers installments already overdue
//! pays a flat fee for each of them into the protocol treasury.

use vstd::prelude::*;
use crate::credit::types::{ContractError, RepaymentSchedule};

verus! {

/// What `set_late_fee_flat` does: the fee to store, or the error.
pub open spec fn spec_set_late_fee_flat(fee: i128) -> Result<i128, ContractError> {
    if fee < 0 {
        Err(ContractError::InvalidAmount)
    } else {
        Ok(fee)
    }
}

/// Validate the flat fee charged per overdue installment; zero disables it.
pub fn set_late_fee_flat(fee: i128) -> (r: Result<i128, ContractError>)
    ensures
        r == spec_set_late_fee_flat(fee),
{
    if fee < 0 {
        return Err(ContractError::InvalidAmount);
    }
    Ok(fee)
}

/// Installments of `schedule` already overdue at `now`: the due dates
/// `next_due_ts + k * period_seconds` that lie strictly before `now`.
pub open spec fn overdue_installments(schedule: RepaymentSchedule, now: u64) -> int {
    if now <= schedule.next_due_ts {
        0
    } else {
        (now - schedule.next_due_ts - 1) / (schedule.period_seconds as int) + 1
    }
}

/// Whole installments a repayment of `effective_repay` covers.
pub open spec fn covered_installments(schedule: RepaymentSchedule, effective_repay: i128) -> int {
    effective_repay as int / schedule.amount_per_period as int
}

/// The schedule has a positive installment and a positive period.
pub open spec fn schedule_usable(schedule: RepaymentSchedule) -> bool {
    schedule.amount_per_period > 0 && schedule.period_seconds > 0
}

/// Installments a repayment is charged the late fee for: those it covers
/// that are overdue.
pub open spec fn charged_installments(schedule: RepaymentSchedule, effective_repay: i128, now: u64) -> int {
    let covered = covered_installments(schedule, effective_repay);
    let overdue = overdue_installments(schedule, now);
    if covered < overdue { covered } else { overdue }
}

/// What `late_fee_owed` does: the fee owed for a repayment of
/// `effective_repay` at `now` against `schedule` with a flat `fee` per
/// installment, or `Overflow`.
pub open spec fn spec_late_fee(
    schedule: Option<RepaymentSchedule>,
    effective_repay: i128,
    now: u64,
    fee: i128,
) -> Result<i128, ContractError> {
    match schedule {
        None => Ok(0),
        Some(s) => {
            if fee <= 0 || !schedule_usable(s) || effective_repay <= 0 {
                Ok(0)
            } else if charged_installments(s, effective_repay, now) * fee > i128::MAX {
                Err(ContractError::Overflow)
            } else {
                Ok((charged_installments(s, effective_repay, now) * fee) as i128)
            }
        },
    }
}

/// The late fee owed for a repayment of `effective_repay` at `now`: `fee`
/// for each installment the repayment covers whose due date has passed.
/// Nothing is owed without a schedule, with no fee configured, or for a
/// repayment short of one installment.
pub fn late_fee_owed(
    schedule: Option<RepaymentSchedule>,
    effective_repay: i128,
    now: u64,
    fee: i128,
) -> (r: Result<i128, ContractError>)
    ensures
        r == spec_late_fee(schedule, effective_repay, now, fee),
{
    let s = match schedule {
        Some(s) => s,
        None => return Ok(0),
    };
    if fee <= 0 || s.amount_per_period <= 0 || s.period_seconds == 0 || effective_repay <= 0 {
        return Ok(0);
    }
    let covered: i128 = effective_repay / s.amount_per_period;
    let overdue: u64 = if now <= s.next_due_ts {
        0
    } else {
        let gap: u64 = now - s.next_due_ts - 1;
        proof {
            assert(gap / s.period_seconds <= gap) by (nonlinear_arith)
                requires s.period_seconds >= 1;
        }
        gap / s.period_seconds + 1
    };
    let overdue_wide = overdue as i128;
    let charged = if covered < overdue_wide { covered } else { overdue_wide };
    match charged.checked_mul(fee) {
        Some(total) => Ok(total),
        None => Err(ContractError::Overflow),
    }
}

/// What `credit_treasury` does.
pub open spec fn spec_credit_treasury(balance: i128, fee: i128) -> Result<i128, ContractError> {
    if balance + fee > i128::MAX || balance + fee < i128::MIN {
        Err(ContractError::Overflow)
    } else {
        Ok((balance + fee) as i128)
    }
}

/// Credit a collected fee to the treasury balance.
pub fn credit_treasury(balance: i128, fee: i128) -> (r: Result<i128, ContractError>)
    ensures
        r == spec_credit_treasury(balance, fee),
{
    match balance.checked_add(fee) {
        Some(b) => Ok(b),
        None => Err(ContractError::Overflow),
    }
}

/// The overdue count is exact: every installment it counts is due strictly
/// before `now`, and the next one is not.
pub proof fn lemma_overdue_installments_exact(schedule: RepaymentSchedule, now: u64)
    requires
        schedule.period_seconds > 0,
    ensures
        ({
            let n = overdue_installments(schedule, now);
            &&& n >= 0
            &&& forall|k: int| 0 <= k < n ==> #[trigger] (schedule.next_due_ts + k * schedule.period_seconds) < now
            &&& schedule.next_due_ts + n * schedule.period_seconds >= now
        }),
{
    let n = overdue_installments(schedule, now);
    let p = schedule.period_seconds as int;
    if now > schedule.next_due_ts {
        let g = now - schedule.next_due_ts - 1;
        assert(g / p * p <= g && g < (g / p + 1) * p && g / p >= 0) by (nonlinear_arith)
            requires g >= 0, p > 0;
        assert forall|k: int| 0 <= k < n implies #[trigger] (schedule.next_due_ts + k * schedule.period_seconds) < now by {
            assert(k * p <= (g / p) * p) by (nonlinear_arith)
                requires 0 <= k, k <= g / p, p > 0;
        }
    }
}

/// The late fee is the flat fee times the installments that are both covered
/// by the repayment and overdue: never more than the fee for every covered
/// installment, nor for every overdue one, and nothing when nothing is
/// overdue yet.
pub proof fn lemma_late_fee_charges_covered_overdue(
    schedule: RepaymentSchedule,
    effective_repay: i128,
    now: u64,
    fee: i128,
)
    requires
        schedule_usable(schedule),
        effective_repay > 0,
        fee > 0,
        spec_late_fee(Some(schedule), effective_repay, now, fee) is Ok,
    ensures
        ({
            let owed = spec_late_fee(Some(schedule), effective_repay, now, fee)->Ok_0;
            &&& owed == charged_installments(schedule, effective_repay, now) * fee
            &&& 0 <= owed <= covered_installments(schedule, effective_repay) * fee
            &&& owed <= overdue_installments(schedule, now) * fee
            &&& (now <= schedule.next_due_ts ==> owed == 0)
        }),
{
    let c = covered_installments(schedule, effective_repay);
    let o = overdue_installments(schedule, now);
    let m = charged_installments(schedule, effective_repay, now);
    assert(c >= 0) by (nonlinear_arith)
        requires c == effective_repay as int / schedule.amount_per_period as int, effective_repay > 0, schedule.amount_per_period > 0;
    if now > schedule.next_due_ts {
        let g = now - schedule.next_due_ts - 1;
        assert(g / (schedule.period_seconds as int) >= 0) by (nonlinear_arith)
            requires g >= 0, schedule.period_seconds > 0;
    }
    assert(0 <= m * fee <= c * fee && m * fee <= o * fee) by (nonlinear_arith)
        requires 0 <= m, m <= c, m <= o, fee > 0;
}

} // verus!
