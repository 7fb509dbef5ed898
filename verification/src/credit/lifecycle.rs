//! Credit-line lifecycle: open, suspend, close, default, settle, reinstate,
//! credit-limit bounds and installment schedules.
//!
//! Status machine: `Active -> Suspended`, `Active | Suspended -> Defaulted`,
//! `Defaulted -> Active | Restricted`, anything but `Closed` `-> Closed`.

use vstd::prelude::*;
use crate::account::AccountId;
use crate::credit::accrual::{apply_accrual, spec_apply_accrual};
use crate::credit::types::{
    CreditLineData, CreditStatus, ContractError, Failure, LineUpdate, PanicReason, RepaymentSchedule,
    MAX_INTEREST_RATE_BPS, MAX_RISK_SCORE,
};

verus! {

/// What `set_credit_limit_bounds` does: the `(min, max)` to store, or the error.
pub open spec fn spec_set_credit_limit_bounds(paused: bool, min: i128, max: i128) -> Result<(i128, i128), ContractError> {
    if paused {
        Err(ContractError::Paused)
    } else if min < 0 {
        Err(ContractError::InvalidAmount)
    } else if max < min {
        Err(ContractError::LimitOutOfBounds)
    } else {
        Ok((min, max))
    }
}

/// Validate new credit-limit bounds: not while paused, a non-negative
/// minimum, and a maximum no lower than the minimum.
pub fn set_credit_limit_bounds(paused: bool, min: i128, max: i128) -> (r: Result<(i128, i128), ContractError>)
    ensures
        r == spec_set_credit_limit_bounds(paused, min, max),
{
    if paused {
        return Err(ContractError::Paused);
    }
    if min < 0 {
        return Err(ContractError::InvalidAmount);
    }
    if max < min {
        return Err(ContractError::LimitOutOfBounds);
    }
    Ok((min, max))
}

/// Whether `credit_limit` lies within the configured bounds (an unset bound
/// does not restrict).
pub open spec fn within_bounds(bounds: (Option<i128>, Option<i128>), credit_limit: i128) -> bool {
    &&& (bounds.0 matches Some(min) ==> credit_limit >= min)
    &&& (bounds.1 matches Some(max) ==> credit_limit <= max)
}

/// Check `credit_limit` against the configured `(min, max)` bounds.
pub fn validate_credit_limit_bounds(bounds: (Option<i128>, Option<i128>), credit_limit: i128) -> (r: Result<(), ContractError>)
    ensures
        r is Ok <==> within_bounds(bounds, credit_limit),
        r is Err ==> r == Err::<(), ContractError>(ContractError::LimitOutOfBounds),
{
    if let Some(min) = bounds.0 {
        if credit_limit < min {
            return Err(ContractError::LimitOutOfBounds);
        }
    }
    if let Some(max) = bounds.1 {
        if credit_limit > max {
            return Err(ContractError::LimitOutOfBounds);
        }
    }
    Ok(())
}

/// A freshly opened line.
pub open spec fn new_line(borrower: AccountId, credit_limit: i128, interest_rate_bps: u32, risk_score: u32, now: u64) -> CreditLineData {
    CreditLineData {
        borrower,
        credit_limit,
        utilized_amount: 0,
        interest_rate_bps,
        risk_score,
        status: CreditStatus::Active,
        last_rate_update_ts: 0,
        accrued_interest: 0,
        last_accrual_ts: now,
        suspension_ts: 0,
    }
}

/// What `open_credit_line` does.
pub open spec fn spec_open_credit_line(
    paused: bool,
    existing: Option<CreditLineData>,
    borrower: AccountId,
    credit_limit: i128,
    interest_rate_bps: u32,
    risk_score: u32,
    bounds: (Option<i128>, Option<i128>),
    now: u64,
) -> Result<CreditLineData, ContractError> {
    if paused {
        Err(ContractError::Paused)
    } else if credit_limit <= 0 {
        Err(ContractError::InvalidAmount)
    } else if interest_rate_bps > MAX_INTEREST_RATE_BPS {
        Err(ContractError::RateTooHigh)
    } else if risk_score > MAX_RISK_SCORE {
        Err(ContractError::ScoreTooHigh)
    } else if !within_bounds(bounds, credit_limit) {
        Err(ContractError::LimitOutOfBounds)
    } else if existing matches Some(e) && e.status == CreditStatus::Active {
        Err(ContractError::AlreadyInitialized)
    } else {
        Ok(new_line(borrower, credit_limit, interest_rate_bps, risk_score, now))
    }
}

/// Result of opening a line.
pub struct OpenOutcome {
    /// The line to store.
    pub line: CreditLineData,
    /// Whether the admin must authorize the call: a line already existed
    /// (not active) and is being replaced.
    pub admin_auth_required: bool,
}

/// Open a credit line for `borrower` at time `now`: a positive limit within
/// the configured bounds, a rate of at most 10 000 bps and a risk score of at
/// most 100. An active line is never overwritten; replacing an inactive one
/// needs the admin's authorization.
pub fn open_credit_line(
    paused: bool,
    existing: &Option<CreditLineData>,
    borrower: AccountId,
    credit_limit: i128,
    interest_rate_bps: u32,
    risk_score: u32,
    bounds: (Option<i128>, Option<i128>),
    now: u64,
) -> (r: Result<OpenOutcome, ContractError>)
    ensures
        match r {
            Ok(o) => {
                &&& spec_open_credit_line(paused, *existing, borrower, credit_limit, interest_rate_bps, risk_score, bounds, now)
                    == Ok::<CreditLineData, ContractError>(o.line)
                &&& o.admin_auth_required == existing is Some
            },
            Err(e) => spec_open_credit_line(paused, *existing, borrower, credit_limit, interest_rate_bps, risk_score, bounds, now)
                == Err::<CreditLineData, ContractError>(e),
        },
{
    if paused {
        return Err(ContractError::Paused);
    }
    if credit_limit <= 0 {
        return Err(ContractError::InvalidAmount);
    }
    if interest_rate_bps > MAX_INTEREST_RATE_BPS {
        return Err(ContractError::RateTooHigh);
    }
    if risk_score > MAX_RISK_SCORE {
        return Err(ContractError::ScoreTooHigh);
    }
    if let Err(e) = validate_credit_limit_bounds(bounds, credit_limit) {
        return Err(e);
    }
    let mut admin_auth_required = false;
    if let Some(e) = existing {
        if e.status == CreditStatus::Active {
            return Err(ContractError::AlreadyInitialized);
        }
        admin_auth_required = true;
    }
    let line = CreditLineData {
        borrower,
        credit_limit,
        utilized_amount: 0,
        interest_rate_bps,
        risk_score,
        status: CreditStatus::Active,
        last_rate_update_ts: 0,
        accrued_interest: 0,
        last_accrual_ts: now,
        suspension_ts: 0,
    };
    Ok(OpenOutcome { line, admin_auth_required })
}

/// What `suspend_credit_line` does.
pub open spec fn spec_suspend_credit_line(paused: bool, line: Option<CreditLineData>) -> Result<CreditLineData, Failure> {
    if paused {
        Err(Failure::Contract(ContractError::Paused))
    } else {
        match line {
            None => Err(Failure::Contract(ContractError::CreditLineNotFound)),
            Some(l) => if l.status != CreditStatus::Active {
                Err(Failure::Panic(PanicReason::OnlyActiveCanBeSuspended))
            } else {
                Ok(CreditLineData { status: CreditStatus::Suspended, ..l })
            },
        }
    }
}

/// Suspend an active line.
pub fn suspend_credit_line(paused: bool, line: Option<CreditLineData>) -> (r: Result<CreditLineData, Failure>)
    ensures
        r == spec_suspend_credit_line(paused, line),
{
    if paused {
        return Err(Failure::Contract(ContractError::Paused));
    }
    let l = match line {
        Some(l) => l,
        None => return Err(Failure::Contract(ContractError::CreditLineNotFound)),
    };
    if l.status != CreditStatus::Active {
        return Err(Failure::Panic(PanicReason::OnlyActiveCanBeSuspended));
    }
    Ok(CreditLineData { status: CreditStatus::Suspended, ..l })
}

/// What `self_suspend_credit_line` does.
pub open spec fn spec_self_suspend_credit_line(paused: bool, line: Option<CreditLineData>, now: u64) -> Result<CreditLineData, Failure> {
    if paused {
        Err(Failure::Contract(ContractError::Paused))
    } else {
        match line {
            None => Err(Failure::Contract(ContractError::CreditLineNotFound)),
            Some(l) => if l.status != CreditStatus::Active {
                Err(Failure::Panic(PanicReason::OnlyActiveCanBeSelfSuspended))
            } else {
                match spec_apply_accrual(l, now) {
                    Err(e) => Err(Failure::Contract(e)),
                    Ok(a) => Ok(CreditLineData { status: CreditStatus::Suspended, ..a }),
                }
            },
        }
    }
}

/// The borrower suspends their own active line at time `now` (borrower
/// authorization only), checkpointing its interest first. Draws then fail
/// while repayments remain allowed; only the admin can lift it.
pub fn self_suspend_credit_line(paused: bool, line: Option<CreditLineData>, now: u64) -> (r: Result<CreditLineData, Failure>)
    ensures
        r == spec_self_suspend_credit_line(paused, line, now),
{
    if paused {
        return Err(Failure::Contract(ContractError::Paused));
    }
    let l = match line {
        Some(l) => l,
        None => return Err(Failure::Contract(ContractError::CreditLineNotFound)),
    };
    if l.status != CreditStatus::Active {
        return Err(Failure::Panic(PanicReason::OnlyActiveCanBeSelfSuspended));
    }
    match apply_accrual(l, now) {
        Ok(a) => Ok(CreditLineData { status: CreditStatus::Suspended, ..a }),
        Err(e) => Err(Failure::Contract(e)),
    }
}

/// What `close_credit_line` does.
pub open spec fn spec_close_credit_line(
    paused: bool,
    line: Option<CreditLineData>,
    borrower: AccountId,
    closer: AccountId,
    admin: AccountId,
) -> Result<LineUpdate, ContractError> {
    if paused {
        Err(ContractError::Paused)
    } else {
        match line {
            None => Err(ContractError::CreditLineNotFound),
            Some(l) => {
                if l.status == CreditStatus::Closed {
                    Ok(LineUpdate { line: l, changed: false })
                } else if closer@ == admin@ {
                    Ok(LineUpdate { line: CreditLineData { status: CreditStatus::Closed, ..l }, changed: true })
                } else if closer@ == borrower@ {
                    if l.utilized_amount != 0 {
                        Err(ContractError::UtilizationNotZero)
                    } else {
                        Ok(LineUpdate { line: CreditLineData { status: CreditStatus::Closed, ..l }, changed: true })
                    }
                } else {
                    Err(ContractError::Unauthorized)
                }
            },
        }
    }
}

/// Close `borrower`'s line on behalf of `closer`: the admin may always
/// close, the borrower only with nothing outstanding, anyone else never.
/// Closing a closed line changes nothing.
pub fn close_credit_line(
    paused: bool,
    line: Option<CreditLineData>,
    borrower: &AccountId,
    closer: &AccountId,
    admin: &AccountId,
) -> (r: Result<LineUpdate, ContractError>)
    ensures
        r == spec_close_credit_line(paused, line, *borrower, *closer, *admin),
{
    if paused {
        return Err(ContractError::Paused);
    }
    let l = match line {
        Some(l) => l,
        None => return Err(ContractError::CreditLineNotFound),
    };
    if l.status == CreditStatus::Closed {
        return Ok(LineUpdate { line: l, changed: false });
    }
    if closer.same_as(admin) {
    } else if closer.same_as(borrower) {
        if l.utilized_amount != 0 {
            return Err(ContractError::UtilizationNotZero);
        }
    } else {
        return Err(ContractError::Unauthorized);
    }
    Ok(LineUpdate { line: CreditLineData { status: CreditStatus::Closed, ..l }, changed: true })
}

/// The admin closing one stored line.
pub open spec fn spec_admin_close(line: Option<CreditLineData>) -> Result<LineUpdate, ContractError> {
    match line {
        None => Err(ContractError::CreditLineNotFound),
        Some(l) => if l.status == CreditStatus::Closed {
            Ok(LineUpdate { line: l, changed: false })
        } else {
            Ok(LineUpdate { line: CreditLineData { status: CreditStatus::Closed, ..l }, changed: true })
        },
    }
}

/// Close a batch of lines as the admin, all or none: fails when paused or
/// when any line is missing; otherwise closes each in order.
pub fn close_credit_lines_batch(paused: bool, lines: Vec<Option<CreditLineData>>) -> (r: Result<Vec<LineUpdate>, ContractError>)
    ensures
        paused ==> r == Err::<Vec<LineUpdate>, ContractError>(ContractError::Paused),
        !paused && (exists|i: int| 0 <= i < lines@.len() && #[trigger] lines@[i] is None) ==>
            r == Err::<Vec<LineUpdate>, ContractError>(ContractError::CreditLineNotFound),
        !paused && (forall|i: int| 0 <= i < lines@.len() ==> #[trigger] lines@[i] is Some) ==> {
            &&& r is Ok
            &&& r->Ok_0@.len() == lines@.len()
            &&& forall|i: int| 0 <= i < lines@.len() ==>
                Ok::<LineUpdate, ContractError>(#[trigger] r->Ok_0@[i]) == spec_admin_close(lines@[i])
        },
{
    if paused {
        return Err(ContractError::Paused);
    }
    let ghost input = lines@;
    let n = lines.len();
    let mut rest = lines;
    let mut done: Vec<LineUpdate> = Vec::new();
    let mut i: usize = 0;
    while i < n
        invariant
            0 <= i <= n,
            !paused,
            input == lines@,
            n == input.len(),
            rest@ == input.subrange(i as int, n as int),
            done@.len() == i,
            forall|j: int| 0 <= j < i ==> input[j] is Some,
            forall|j: int| 0 <= j < i ==>
                Ok::<LineUpdate, ContractError>(#[trigger] done@[j]) == spec_admin_close(input[j]),
        decreases n - i,
    {
        let item = rest.remove(0);
        assert(item == input[i as int]);
        let l = match item {
            Some(l) => l,
            None => {
                assert(input[i as int] is None);
                return Err(ContractError::CreditLineNotFound);
            },
        };
        if l.status == CreditStatus::Closed {
            done.push(LineUpdate { line: l, changed: false });
        } else {
            done.push(LineUpdate { line: CreditLineData { status: CreditStatus::Closed, ..l }, changed: true });
        }
        i = i + 1;
        assert(rest@ =~= input.subrange(i as int, n as int));
    }
    Ok(done)
}

/// What `default_credit_line` does.
pub open spec fn spec_default_credit_line(paused: bool, line: Option<CreditLineData>, now: u64) -> Result<LineUpdate, ContractError> {
    if paused {
        Err(ContractError::Paused)
    } else {
        match line {
            None => Err(ContractError::CreditLineNotFound),
            Some(l) => {
                if l.status == CreditStatus::Closed {
                    Err(ContractError::CreditLineClosed)
                } else {
                    match spec_apply_accrual(l, now) {
                        Err(e) => Err(e),
                        Ok(a) => if a.status == CreditStatus::Defaulted {
                            Ok(LineUpdate { line: a, changed: false })
                        } else {
                            Ok(LineUpdate { line: CreditLineData { status: CreditStatus::Defaulted, ..a }, changed: true })
                        },
                    }
                }
            },
        }
    }
}

/// Mark a line as defaulted at time `now`, checkpointing its interest first.
/// A closed line cannot default; defaulting a defaulted line changes nothing:
/// `changed` is false and the caller stores nothing. On a change the caller
/// stores the line and requests the liquidation of its utilized amount.
pub fn default_credit_line(paused: bool, line: Option<CreditLineData>, now: u64) -> (r: Result<LineUpdate, ContractError>)
    ensures
        r == spec_default_credit_line(paused, line, now),
{
    if paused {
        return Err(ContractError::Paused);
    }
    let l = match line {
        Some(l) => l,
        None => return Err(ContractError::CreditLineNotFound),
    };
    if l.status == CreditStatus::Closed {
        return Err(ContractError::CreditLineClosed);
    }
    let a = match apply_accrual(l, now) {
        Ok(a) => a,
        Err(e) => return Err(e),
    };
    if a.status == CreditStatus::Defaulted {
        return Ok(LineUpdate { line: a, changed: false });
    }
    Ok(LineUpdate { line: CreditLineData { status: CreditStatus::Defaulted, ..a }, changed: true })
}

/// The line after `recovered_amount` of liquidation proceeds are applied to
/// it: utilization drops by the proceeds, and the line closes when nothing
/// remains.
pub open spec fn settled_line(l: CreditLineData, recovered_amount: i128) -> CreditLineData {
    let remaining = (l.utilized_amount - recovered_amount) as i128;
    CreditLineData {
        utilized_amount: remaining,
        status: if remaining == 0 { CreditStatus::Closed } else { l.status },
        ..l
    }
}

/// What the close-factor variant of `settle_default_liquidation` does.
pub open spec fn spec_settle_with_close_factor(
    line: Option<CreditLineData>,
    recovered_amount: i128,
    already_settled: bool,
    close_factor_bps: u32,
    max_close_factor_bps: u32,
    now: u64,
) -> Result<CreditLineData, ContractError> {
    if recovered_amount <= 0 {
        Err(ContractError::InvalidAmount)
    } else if close_factor_bps == 0 || close_factor_bps > 10_000 {
        Err(ContractError::InvalidAmount)
    } else if close_factor_bps > max_close_factor_bps {
        Err(ContractError::CloseFactorAboveMax)
    } else if already_settled {
        Err(ContractError::AlreadyInitialized)
    } else {
        match line {
            None => Err(ContractError::CreditLineNotFound),
            Some(stored) => match spec_apply_accrual(stored, now) {
              Err(e) => Err(e),
              Ok(l) => {
                if l.status != CreditStatus::Defaulted {
                    Err(ContractError::CreditLineDefaulted)
                } else if l.utilized_amount * close_factor_bps > i128::MAX || l.utilized_amount * close_factor_bps < i128::MIN {
                    Err(ContractError::Overflow)
                } else if recovered_amount > crate::auction::pricing::trunc_div(l.utilized_amount * close_factor_bps, 10_000) {
                    Err(ContractError::OverLimit)
                } else if l.utilized_amount - recovered_amount < i128::MIN {
                    Err(ContractError::Overflow)
                } else {
                    Ok(settled_line(l, recovered_amount))
                }
              },
            },
        }
    }
}

/// Apply auction proceeds to a defaulted line, recovering at most
/// `close_factor_bps` of its utilization in one settlement (the factor must be
/// in `1..=10_000` and at most the configured maximum). `already_settled` is
/// the stored marker for this `(borrower, settlement_id)`; the caller records
/// it on success, and clears the repayment schedule when the line closes.
/// Interest is checkpointed at `now` before the proceeds are applied.
pub fn settle_default_liquidation(
    line: Option<CreditLineData>,
    recovered_amount: i128,
    already_settled: bool,
    close_factor_bps: u32,
    max_close_factor_bps: u32,
    now: u64,
) -> (r: Result<CreditLineData, ContractError>)
    ensures
        r == spec_settle_with_close_factor(line, recovered_amount, already_settled, close_factor_bps, max_close_factor_bps, now),
{
    if recovered_amount <= 0 {
        return Err(ContractError::InvalidAmount);
    }
    if close_factor_bps == 0 || close_factor_bps > 10_000 {
        return Err(ContractError::InvalidAmount);
    }
    if close_factor_bps > max_close_factor_bps {
        return Err(ContractError::CloseFactorAboveMax);
    }
    if already_settled {
        return Err(ContractError::AlreadyInitialized);
    }
    let l = match line {
        Some(l) => l,
        None => return Err(ContractError::CreditLineNotFound),
    };
    let l = match apply_accrual(l, now) {
        Ok(a) => a,
        Err(e) => return Err(e),
    };
    if l.status != CreditStatus::Defaulted {
        return Err(ContractError::CreditLineDefaulted);
    }
    let scaled = match l.utilized_amount.checked_mul(close_factor_bps as i128) {
        Some(s) => s,
        None => return Err(ContractError::Overflow),
    };
    let target_recovery = scaled / 10_000;
    if recovered_amount > target_recovery {
        return Err(ContractError::OverLimit);
    }
    let remaining = match l.utilized_amount.checked_sub(recovered_amount) {
        Some(v) => v,
        None => return Err(ContractError::Overflow),
    };
    let status = if remaining == 0 { CreditStatus::Closed } else { l.status };
    Ok(CreditLineData { utilized_amount: remaining, status, ..l })
}

/// What `reinstate_credit_line` does.
pub open spec fn spec_reinstate_credit_line(
    paused: bool,
    line: Option<CreditLineData>,
    target_status: CreditStatus,
    now: u64,
) -> Result<CreditLineData, ContractError> {
    if paused {
        Err(ContractError::Paused)
    } else if target_status != CreditStatus::Active && target_status != CreditStatus::Restricted {
        Err(ContractError::InvalidAmount)
    } else {
        match line {
            None => Err(ContractError::CreditLineNotFound),
            Some(stored) => match spec_apply_accrual(stored, now) {
                Err(e) => Err(e),
                Ok(l) => if l.status != CreditStatus::Defaulted {
                    Err(ContractError::CreditLineDefaulted)
                } else {
                    Ok(CreditLineData { status: target_status, suspension_ts: 0, ..l })
                },
            },
        }
    }
}

/// Reinstate a defaulted line as `Active` or `Restricted`, checkpointing its
/// interest at `now` first.
pub fn reinstate_credit_line(
    paused: bool,
    line: Option<CreditLineData>,
    target_status: CreditStatus,
    now: u64,
) -> (r: Result<CreditLineData, ContractError>)
    ensures
        r == spec_reinstate_credit_line(paused, line, target_status, now),
{
    if paused {
        return Err(ContractError::Paused);
    }
    if target_status != CreditStatus::Active && target_status != CreditStatus::Restricted {
        return Err(ContractError::InvalidAmount);
    }
    let l = match line {
        Some(l) => l,
        None => return Err(ContractError::CreditLineNotFound),
    };
    let l = match apply_accrual(l, now) {
        Ok(a) => a,
        Err(e) => return Err(e),
    };
    if l.status != CreditStatus::Defaulted {
        return Err(ContractError::CreditLineDefaulted);
    }
    Ok(CreditLineData { status: target_status, suspension_ts: 0, ..l })
}

/// What `set_repayment_schedule` does.
pub open spec fn spec_set_repayment_schedule(
    paused: bool,
    line_exists: bool,
    amount_per_period: i128,
    period_seconds: u64,
    first_due_ts: u64,
) -> Result<RepaymentSchedule, ContractError> {
    if paused {
        Err(ContractError::Paused)
    } else if amount_per_period <= 0 || period_seconds == 0 {
        Err(ContractError::InvalidAmount)
    } else if !line_exists {
        Err(ContractError::CreditLineNotFound)
    } else {
        Ok(RepaymentSchedule { amount_per_period, period_seconds, next_due_ts: first_due_ts })
    }
}

/// Build a borrower's installment schedule: a positive amount per period, a
/// positive period, first due at `first_due_ts`; the borrower must have a line.
pub fn set_repayment_schedule(
    paused: bool,
    line_exists: bool,
    amount_per_period: i128,
    period_seconds: u64,
    first_due_ts: u64,
) -> (r: Result<RepaymentSchedule, ContractError>)
    ensures
        r == spec_set_repayment_schedule(paused, line_exists, amount_per_period, period_seconds, first_due_ts),
{
    if paused {
        return Err(ContractError::Paused);
    }
    if amount_per_period <= 0 || period_seconds == 0 {
        return Err(ContractError::InvalidAmount);
    }
    if !line_exists {
        return Err(ContractError::CreditLineNotFound);
    }
    Ok(RepaymentSchedule { amount_per_period, period_seconds, next_due_ts: first_due_ts })
}

/// `a * b` saturating at `u64::MAX`.
pub open spec fn sat_mul_u64(a: int, b: int) -> int {
    if a * b > u64::MAX { u64::MAX as int } else { a * b }
}

/// `a + b` saturating at `u64::MAX`.
pub open spec fn sat_add_u64(a: int, b: int) -> int {
    if a + b > u64::MAX { u64::MAX as int } else { a + b }
}

/// Whole installments a repayment covers, as a `u64` (the quotient cast to `u64`).
pub open spec fn installments_paid(effective_repay: i128, amount_per_period: i128) -> u64 {
    (effective_repay / amount_per_period) as u64
}

/// What `advance_repayment_schedule_after_repay` does: the schedule to store,
/// or `None` when nothing changes.
pub open spec fn spec_advance_schedule(schedule: Option<RepaymentSchedule>, effective_repay: i128) -> Option<RepaymentSchedule> {
    if effective_repay <= 0 {
        None
    } else {
        match schedule {
            None => None,
            Some(s) => {
                if s.amount_per_period <= 0 || s.period_seconds == 0 {
                    None
                } else if installments_paid(effective_repay, s.amount_per_period) == 0 {
                    None
                } else {
                    let advance = sat_mul_u64(installments_paid(effective_repay, s.amount_per_period) as int, s.period_seconds as int);
                    Some(RepaymentSchedule { next_due_ts: sat_add_u64(s.next_due_ts as int, advance) as u64, ..s })
                }
            },
        }
    }
}

/// Move the next due date forward by the whole installments a repayment of
/// `effective_repay` covers (`floor(repay / amount_per_period) * period`,
/// saturating). Partial installments do not move it.
pub fn advance_repayment_schedule_after_repay(
    schedule: Option<RepaymentSchedule>,
    effective_repay: i128,
) -> (r: Option<RepaymentSchedule>)
    ensures
        r == spec_advance_schedule(schedule, effective_repay),
{
    if effective_repay <= 0 {
        return None;
    }
    let s = match schedule {
        Some(s) => s,
        None => return None,
    };
    if s.amount_per_period <= 0 || s.period_seconds == 0 {
        return None;
    }
    let installments = (effective_repay / s.amount_per_period) as u64;
    if installments == 0 {
        return None;
    }
    let advance_seconds = match installments.checked_mul(s.period_seconds) {
        Some(a) => a,
        None => u64::MAX,
    };
    let next_due_ts = s.next_due_ts.saturating_add(advance_seconds);
    Some(RepaymentSchedule { next_due_ts, ..s })
}

} // verus!
