//! Properties that hold across the credit contract's operations.

use vstd::prelude::*;
use crate::account::AccountId;
use crate::credit::accrual::{lemma_accrual_adds_interest, spec_apply_accrual};
use crate::credit::borrow::{
    draw_gate_error, spec_draw_credit, spec_effective_repay, spec_repay_and_release, spec_repay_credit,
};
use crate::credit::collateral::{required_collateral, spec_withdraw_collateral};
use crate::credit::lifecycle::{
    spec_admin_close, spec_advance_schedule, spec_close_credit_line, spec_default_credit_line,
    spec_open_credit_line, spec_reinstate_credit_line, spec_self_suspend_credit_line, spec_settle_with_close_factor,
    spec_suspend_credit_line, within_bounds,
};
use crate::credit::settlement::{spec_settle_default_liquidation, spec_validate_oracle_price, sat_sub_u64};
use crate::credit::types::{
    CreditLineData, CreditStatus, ContractError, DrawLimits, Failure, LineUpdate, OracleConfig,
    RepaymentSchedule, TokenFunds,
};
use crate::math::spec_deviation_bps;

verus! {

/// The line with its interest checkpointed at `now` (meaningful when the
/// checkpoint succeeds).
pub open spec fn accrued(line: CreditLineData, now: u64) -> CreditLineData {
    spec_apply_accrual(line, now)->Ok_0
}

/// A draw freeze refuses every draw with `DrawsFrozen`, whatever the line,
/// borrower, amount or reserve; repayment takes no freeze flag at all, so
/// the freeze never affects it.
pub proof fn lemma_frozen_draws_refused(
    line: Option<CreditLineData>,
    borrower: AccountId,
    amount: i128,
    now: u64,
    limits: DrawLimits,
    reserve_balance: Option<i128>,
)
    requires
        limits.draws_frozen,
    ensures
        spec_draw_credit(line, borrower, amount, now, limits, reserve_balance)
            == Err::<CreditLineData, Failure>(Failure::Contract(ContractError::DrawsFrozen)),
{
}

/// After a line is suspended, every draw on it fails; a positive draw by its
/// borrower, with draws not frozen and the borrower not blocked, fails with
/// `CreditLineSuspended`.
pub proof fn lemma_suspended_line_rejects_draws(
    line: CreditLineData,
    borrower: AccountId,
    amount: i128,
    now: u64,
    limits: DrawLimits,
    reserve_balance: Option<i128>,
)
    requires
        spec_suspend_credit_line(false, Some(line)) is Ok,
    ensures
        spec_draw_credit(Some(spec_suspend_credit_line(false, Some(line))->Ok_0), borrower, amount, now, limits, reserve_balance) is Err,
        (amount > 0 && line.borrower@ == borrower@ && !limits.draws_frozen && !limits.borrower_blocked) ==>
            spec_draw_credit(Some(spec_suspend_credit_line(false, Some(line))->Ok_0), borrower, amount, now, limits, reserve_balance)
                == Err::<CreditLineData, Failure>(Failure::Contract(ContractError::CreditLineSuspended)),
{
}

/// A borrower's self-suspension blocks every draw on the line, while a
/// positive repayment within the cap (with no token configured, or enough
/// allowance and balance) still succeeds when its interest checkpoint does;
/// the suspension keeps the line's utilization and parameters.
pub proof fn lemma_self_suspend_blocks_draws_allows_repayment(
    line: CreditLineData,
    suspend_ts: u64,
    borrower: AccountId,
    draw_amount: i128,
    now: u64,
    limits: DrawLimits,
    reserve_balance: Option<i128>,
    repay_amount: i128,
    max_repay_amount: Option<i128>,
    funds: Option<TokenFunds>,
)
    requires
        spec_self_suspend_credit_line(false, Some(line), suspend_ts) is Ok,
        spec_apply_accrual(spec_self_suspend_credit_line(false, Some(line), suspend_ts)->Ok_0, now) is Ok,
        repay_amount > 0,
        max_repay_amount matches Some(m) ==> repay_amount <= m,
        funds matches Some(f) ==> f.allowance >= repay_amount && f.balance >= repay_amount,
    ensures
        ({
            let s = spec_self_suspend_credit_line(false, Some(line), suspend_ts)->Ok_0;
            &&& s == (CreditLineData { status: CreditStatus::Suspended, ..accrued(line, suspend_ts) })
            &&& s.utilized_amount >= line.utilized_amount
            &&& s.credit_limit == line.credit_limit && s.interest_rate_bps == line.interest_rate_bps
            &&& s.risk_score == line.risk_score && s.borrower == line.borrower
            &&& spec_draw_credit(Some(s), borrower, draw_amount, now, limits, reserve_balance) is Err
            &&& spec_repay_credit(Some(s), repay_amount, now, max_repay_amount, funds) is Ok
        }),
{
    lemma_accrual_adds_interest(line, suspend_ts);
}

/// After a line defaults, every draw on it fails, while a positive repayment
/// within the per-repayment cap (with no token configured, or enough
/// allowance and balance) still succeeds when its interest checkpoint does.
pub proof fn lemma_defaulted_line_rejects_draws_accepts_repayment(
    line: CreditLineData,
    default_ts: u64,
    borrower: AccountId,
    draw_amount: i128,
    now: u64,
    limits: DrawLimits,
    reserve_balance: Option<i128>,
    repay_amount: i128,
    max_repay_amount: Option<i128>,
    funds: Option<TokenFunds>,
)
    requires
        spec_default_credit_line(false, Some(line), default_ts) is Ok,
        spec_apply_accrual(spec_default_credit_line(false, Some(line), default_ts)->Ok_0.line, now) is Ok,
        repay_amount > 0,
        max_repay_amount matches Some(m) ==> repay_amount <= m,
        funds matches Some(f) ==> f.allowance >= repay_amount && f.balance >= repay_amount,
    ensures
        spec_draw_credit(Some(spec_default_credit_line(false, Some(line), default_ts)->Ok_0.line), borrower, draw_amount, now, limits, reserve_balance) is Err,
        spec_repay_credit(Some(spec_default_credit_line(false, Some(line), default_ts)->Ok_0.line), repay_amount, now, max_repay_amount, funds) is Ok,
{
    let d = spec_default_credit_line(false, Some(line), default_ts)->Ok_0.line;
    lemma_accrual_adds_interest(d, now);
    if spec_apply_accrual(line, default_ts) is Ok {
        lemma_accrual_adds_interest(line, default_ts);
    }
}

/// Repayment is accepted in every status but `Closed` (active, suspended,
/// defaulted, restricted) when the borrower can fund it, it is within the
/// per-repayment cap and its interest checkpoint succeeds.
pub proof fn lemma_repay_allowed_unless_closed(
    line: CreditLineData,
    amount: i128,
    now: u64,
    max_repay_amount: Option<i128>,
    funds: Option<TokenFunds>,
)
    requires
        line.status != CreditStatus::Closed,
        amount > 0,
        max_repay_amount matches Some(m) ==> amount <= m,
        spec_apply_accrual(line, now) is Ok,
        funds matches Some(f) ==> f.allowance >= amount && f.balance >= amount,
    ensures
        spec_repay_credit(Some(line), amount, now, max_repay_amount, funds) is Ok,
{
}

/// A short allowance refuses a repayment with
/// `InsufficientRepaymentAllowance`, and, with enough allowance, a short
/// balance refuses it with `InsufficientRepaymentBalance`; the line is left
/// as it was.
pub proof fn lemma_repayment_funds_refusals(
    line: CreditLineData,
    amount: i128,
    now: u64,
    funds: TokenFunds,
)
    requires
        line.status != CreditStatus::Closed,
        amount > 0,
        spec_apply_accrual(line, now) is Ok,
        spec_effective_repay(amount, accrued(line, now).utilized_amount) > 0,
    ensures
        funds.allowance < spec_effective_repay(amount, accrued(line, now).utilized_amount) ==>
            spec_repay_credit(Some(line), amount, now, None, Some(funds))
                == Err::<(CreditLineData, i128), Failure>(Failure::Contract(ContractError::InsufficientRepaymentAllowance)),
        (funds.allowance >= spec_effective_repay(amount, accrued(line, now).utilized_amount)
            && funds.balance < spec_effective_repay(amount, accrued(line, now).utilized_amount)) ==>
            spec_repay_credit(Some(line), amount, now, None, Some(funds))
                == Err::<(CreditLineData, i128), Failure>(Failure::Contract(ContractError::InsufficientRepaymentBalance)),
{
}

/// A repayment never increases utilization: after the interest checkpoint it
/// drops by exactly the amount repaid, which is the request capped at what
/// was owed, and an overpayment clears the debt.
pub proof fn lemma_repay_never_increases_utilization(
    line: CreditLineData,
    amount: i128,
    now: u64,
    max_repay_amount: Option<i128>,
    funds: Option<TokenFunds>,
)
    requires
        line.utilized_amount >= 0,
        spec_repay_credit(Some(line), amount, now, max_repay_amount, funds) is Ok,
    ensures
        ({
            let (after, repaid) = spec_repay_credit(Some(line), amount, now, max_repay_amount, funds)->Ok_0;
            let a = accrued(line, now);
            &&& spec_apply_accrual(line, now) is Ok
            &&& repaid == spec_effective_repay(amount, a.utilized_amount)
            &&& 0 <= after.utilized_amount <= a.utilized_amount
            &&& after.utilized_amount == a.utilized_amount - repaid
            &&& (amount >= a.utilized_amount ==> after.utilized_amount == 0)
            &&& after.credit_limit == line.credit_limit
            &&& after.status == line.status
            &&& after.borrower == line.borrower
        }),
{
    lemma_accrual_adds_interest(line, now);
}

/// A draw beyond the credit limit is refused with `OverLimit` once the
/// earlier checks pass and the interest checkpoint succeeds.
pub proof fn lemma_over_limit_draw_refused(
    line: CreditLineData,
    borrower: AccountId,
    amount: i128,
    now: u64,
    limits: DrawLimits,
    reserve_balance: Option<i128>,
)
    requires
        draw_gate_error(Some(line), borrower, amount, now, limits) is None,
        spec_apply_accrual(line, now) is Ok,
        accrued(line, now).utilized_amount + amount <= i128::MAX,
        accrued(line, now).utilized_amount + amount > accrued(line, now).credit_limit,
    ensures
        spec_draw_credit(Some(line), borrower, amount, now, limits, reserve_balance)
            == Err::<CreditLineData, Failure>(Failure::Contract(ContractError::OverLimit)),
{
}

/// A draw raises utilization (after the interest checkpoint) by exactly the
/// amount drawn, never past the credit limit nor the protocol's exposure
/// cap; it happens only on an active line, with draws not frozen and the
/// borrower not blocked; nothing else about the line changes.
pub proof fn lemma_draw_respects_limit(
    line: CreditLineData,
    borrower: AccountId,
    amount: i128,
    now: u64,
    limits: DrawLimits,
    reserve_balance: Option<i128>,
)
    requires
        spec_draw_credit(Some(line), borrower, amount, now, limits, reserve_balance) is Ok,
    ensures
        ({
            let after = spec_draw_credit(Some(line), borrower, amount, now, limits, reserve_balance)->Ok_0;
            let a = accrued(line, now);
            &&& spec_apply_accrual(line, now) is Ok
            &&& after.utilized_amount == a.utilized_amount + amount
            &&& after.utilized_amount <= after.credit_limit
            &&& amount > 0
            &&& line.status == CreditStatus::Active
            &&& !limits.draws_frozen && !limits.borrower_blocked
            &&& (limits.max_total_exposure matches Some(cap) ==> limits.total_utilized + amount <= cap)
            &&& (reserve_balance matches Some(b) ==> b >= amount)
            &&& after == (CreditLineData { utilized_amount: after.utilized_amount, ..a })
        }),
{
}

/// Collateral released by a repayment is the proportional share of the debt
/// (after the interest checkpoint), rounded down: never more than the
/// collateral held, never a larger fraction of the collateral than the
/// fraction of debt repaid, and everything on a full repayment.
pub proof fn lemma_collateral_release_proportional(
    line: CreditLineData,
    amount: i128,
    now: u64,
    max_repay_amount: Option<i128>,
    funds: Option<TokenFunds>,
    collateral: i128,
)
    requires
        line.utilized_amount >= 0,
        collateral >= 0,
        spec_repay_and_release(line_opt(line), amount, now, max_repay_amount, funds, collateral) is Ok,
    ensures
        ({
            let (after, repaid, released, left) = spec_repay_and_release(line_opt(line), amount, now, max_repay_amount, funds, collateral)->Ok_0;
            let a = accrued(line, now);
            &&& 0 <= released <= collateral
            &&& left == collateral - released
            &&& released * a.utilized_amount <= collateral * repaid
            &&& (repaid == a.utilized_amount && repaid > 0 ==> released == collateral)
            &&& after.utilized_amount == a.utilized_amount - repaid
        }),
{
    lemma_accrual_adds_interest(line, now);
    let (after, repaid, released, left) = spec_repay_and_release(line_opt(line), amount, now, max_repay_amount, funds, collateral)->Ok_0;
    let u = accrued(line, now).utilized_amount as int;
    let c = collateral as int;
    let e = repaid as int;
    if c > 0 && e > 0 && u > 0 {
        if e >= u {
            assert(c * u <= c * e) by (nonlinear_arith)
                requires 0 < c, u <= e;
        } else {
            assert(0 <= (c * e) / u <= c && ((c * e) / u) * u <= c * e) by (nonlinear_arith)
                requires 0 < c, 0 < e < u;
        }
    } else {
        assert(0 * u <= c * e) by (nonlinear_arith)
            requires 0 <= c, 0 <= e;
    }
}

/// `Some(line)`.
pub open spec fn line_opt(line: CreditLineData) -> Option<CreditLineData> {
    Some(line)
}

/// A collateral withdrawal never leaves less than the required floor behind
/// an outstanding debt.
pub proof fn lemma_withdraw_keeps_collateral_floor(
    balance: i128,
    amount: i128,
    line: CreditLineData,
    min_ratio_bps: Option<u32>,
    token_configured: bool,
)
    requires
        line.utilized_amount > 0,
        spec_withdraw_collateral(balance, amount, Some(line), min_ratio_bps, token_configured) is Ok,
    ensures
        spec_withdraw_collateral(balance, amount, Some(line), min_ratio_bps, token_configured)->Ok_0
            >= required_collateral(line.utilized_amount as int, min_ratio_bps),
        spec_withdraw_collateral(balance, amount, Some(line), min_ratio_bps, token_configured)->Ok_0 == balance - amount,
{
}

/// A closed line is terminal: draws, repayments, suspension, default and
/// reinstatement all fail, and closing it again changes nothing.
pub proof fn lemma_closed_line_is_terminal(
    line: CreditLineData,
    borrower: AccountId,
    closer: AccountId,
    admin: AccountId,
    amount: i128,
    now: u64,
    limits: DrawLimits,
    reserve_balance: Option<i128>,
    max_repay_amount: Option<i128>,
    funds: Option<TokenFunds>,
    target_status: CreditStatus,
)
    requires
        line.status == CreditStatus::Closed,
    ensures
        spec_draw_credit(Some(line), borrower, amount, now, limits, reserve_balance) is Err,
        spec_repay_credit(Some(line), amount, now, max_repay_amount, funds) is Err,
        spec_suspend_credit_line(false, Some(line)) is Err,
        spec_default_credit_line(false, Some(line), now) == Err::<LineUpdate, ContractError>(ContractError::CreditLineClosed),
        spec_reinstate_credit_line(false, Some(line), target_status, now) is Err,
        spec_close_credit_line(false, Some(line), borrower, closer, admin)
            == Ok::<LineUpdate, ContractError>(LineUpdate { line, changed: false }),
{
    if spec_apply_accrual(line, now) is Ok {
        lemma_accrual_adds_interest(line, now);
    }
}

/// Closing is idempotent: closing a line that was just closed succeeds and
/// changes nothing, whoever asks.
pub proof fn lemma_close_idempotent(
    line: CreditLineData,
    borrower: AccountId,
    closer: AccountId,
    admin: AccountId,
    second_closer: AccountId,
)
    requires
        spec_close_credit_line(false, Some(line), borrower, closer, admin) is Ok,
    ensures
        ({
            let closed = spec_close_credit_line(false, Some(line), borrower, closer, admin)->Ok_0.line;
            &&& closed.status == CreditStatus::Closed
            &&& spec_close_credit_line(false, Some(closed), borrower, second_closer, admin)
                == Ok::<LineUpdate, ContractError>(LineUpdate { line: closed, changed: false })
        }),
{
}

/// The borrower may close only a fully repaid line; the admin may close any
/// line; nobody else may close one.
pub proof fn lemma_close_authorization(line: CreditLineData, borrower: AccountId, closer: AccountId, admin: AccountId)
    requires
        line.status != CreditStatus::Closed,
    ensures
        closer@ == admin@ ==> spec_close_credit_line(false, Some(line), borrower, closer, admin) is Ok,
        (closer@ != admin@ && closer@ == borrower@ && line.utilized_amount != 0) ==>
            spec_close_credit_line(false, Some(line), borrower, closer, admin)
                == Err::<LineUpdate, ContractError>(ContractError::UtilizationNotZero),
        (closer@ != admin@ && closer@ != borrower@) ==>
            spec_close_credit_line(false, Some(line), borrower, closer, admin)
                == Err::<LineUpdate, ContractError>(ContractError::Unauthorized),
{
}

/// Each entry of a batch close is the admin closing that line on its own.
pub proof fn lemma_batch_entry_is_admin_close(line: Option<CreditLineData>, borrower: AccountId, admin: AccountId)
    ensures
        spec_admin_close(line) == spec_close_credit_line(false, line, borrower, admin, admin),
{
}

/// An opened line is active, owes nothing, and its limit lies within the
/// configured bounds; a limit outside them is refused.
pub proof fn lemma_open_respects_bounds(
    existing: Option<CreditLineData>,
    borrower: AccountId,
    credit_limit: i128,
    interest_rate_bps: u32,
    risk_score: u32,
    bounds: (Option<i128>, Option<i128>),
    now: u64,
)
    ensures
        spec_open_credit_line(false, existing, borrower, credit_limit, interest_rate_bps, risk_score, bounds, now) matches Ok(l) ==> {
            &&& within_bounds(bounds, l.credit_limit)
            &&& l.status == CreditStatus::Active
            &&& l.utilized_amount == 0
            &&& l.credit_limit == credit_limit > 0
        },
        (credit_limit > 0 && interest_rate_bps <= 10_000 && risk_score <= 100 && !within_bounds(bounds, credit_limit)) ==>
            spec_open_credit_line(false, existing, borrower, credit_limit, interest_rate_bps, risk_score, bounds, now)
                == Err::<CreditLineData, ContractError>(ContractError::LimitOutOfBounds),
{
}

/// Only a defaulted line can be reinstated, and only as `Active` or
/// `Restricted`; reinstatement checkpoints interest and changes nothing else
/// but the status and the suspension timestamp.
pub proof fn lemma_reinstate_only_from_defaulted(line: CreditLineData, target_status: CreditStatus, now: u64)
    ensures
        spec_reinstate_credit_line(false, Some(line), target_status, now) matches Ok(after) ==> {
            &&& line.status == CreditStatus::Defaulted
            &&& (after.status == CreditStatus::Active || after.status == CreditStatus::Restricted)
            &&& after == (CreditLineData { status: target_status, suspension_ts: 0, ..accrued(line, now) })
        },
        (line.status != CreditStatus::Defaulted && (target_status == CreditStatus::Active || target_status == CreditStatus::Restricted)
            && spec_apply_accrual(line, now) is Ok) ==>
            spec_reinstate_credit_line(false, Some(line), target_status, now)
                == Err::<CreditLineData, ContractError>(ContractError::CreditLineDefaulted),
{
    if spec_apply_accrual(line, now) is Ok {
        lemma_accrual_adds_interest(line, now);
    }
}

/// Settling liquidation proceeds reduces the debt (after the interest
/// checkpoint) by exactly the proceeds, never below zero; the line closes
/// exactly when nothing remains and stays defaulted otherwise. The same
/// settlement cannot be applied twice.
pub proof fn lemma_settlement_accounting(paused: bool, line: CreditLineData, recovered_amount: i128, now: u64)
    requires
        spec_settle_default_liquidation(paused, Some(line), recovered_amount, false, now) is Ok,
    ensures
        ({
            let after = spec_settle_default_liquidation(paused, Some(line), recovered_amount, false, now)->Ok_0;
            let a = accrued(line, now);
            &&& after.utilized_amount == a.utilized_amount - recovered_amount
            &&& 0 <= after.utilized_amount < a.utilized_amount
            &&& (after.status == CreditStatus::Closed <==> after.utilized_amount == 0)
            &&& (after.utilized_amount != 0 ==> after.status == CreditStatus::Defaulted)
        }),
        spec_settle_default_liquidation(paused, Some(line), recovered_amount, true, now)
            == Err::<CreditLineData, ContractError>(ContractError::AlreadyInitialized),
{
}

/// With a close factor, one settlement recovers at most that share of the
/// debt; the debt drops by exactly the proceeds, the line closes exactly when
/// nothing remains, and the settlement cannot be replayed.
pub proof fn lemma_close_factor_settlement_accounting(
    line: CreditLineData,
    recovered_amount: i128,
    close_factor_bps: u32,
    max_close_factor_bps: u32,
    now: u64,
)
    requires
        line.utilized_amount >= 0,
        spec_settle_with_close_factor(Some(line), recovered_amount, false, close_factor_bps, max_close_factor_bps, now) is Ok,
    ensures
        ({
            let after = spec_settle_with_close_factor(Some(line), recovered_amount, false, close_factor_bps, max_close_factor_bps, now)->Ok_0;
            let a = accrued(line, now);
            &&& recovered_amount * 10_000 <= a.utilized_amount * close_factor_bps
            &&& after.utilized_amount == a.utilized_amount - recovered_amount
            &&& 0 <= after.utilized_amount < a.utilized_amount
            &&& (after.status == CreditStatus::Closed <==> after.utilized_amount == 0)
        }),
        spec_settle_with_close_factor(Some(line), recovered_amount, true, close_factor_bps, max_close_factor_bps, now)
            == Err::<CreditLineData, ContractError>(ContractError::AlreadyInitialized),
{
    lemma_accrual_adds_interest(line, now);
    let u = accrued(line, now).utilized_amount;
    let x = u * close_factor_bps;
    assert(0 <= x) by (nonlinear_arith)
        requires x == u * close_factor_bps, u >= 0, close_factor_bps >= 0;
    assert(recovered_amount * 10_000 <= x && x / 10_000 <= u) by (nonlinear_arith)
        requires
            recovered_amount <= x / 10_000,
            0 <= x,
            x == u * close_factor_bps,
            close_factor_bps <= 10_000,
            u >= 0;
}

/// A repayment smaller than one installment does not move the due date; one
/// covering whole installments moves it by exactly their periods when no
/// saturation occurs.
pub proof fn lemma_schedule_advance(schedule: RepaymentSchedule, effective_repay: i128)
    requires
        schedule.amount_per_period > 0,
        schedule.period_seconds > 0,
    ensures
        (0 < effective_repay < schedule.amount_per_period) ==>
            spec_advance_schedule(Some(schedule), effective_repay) is None,
        ({
            let n = effective_repay / schedule.amount_per_period;
            (effective_repay >= schedule.amount_per_period
                && n * schedule.period_seconds + schedule.next_due_ts <= u64::MAX) ==>
                spec_advance_schedule(Some(schedule), effective_repay) == Some(RepaymentSchedule {
                    next_due_ts: (schedule.next_due_ts + n * schedule.period_seconds) as u64,
                    ..schedule
                })
        }),
{
    let a = schedule.amount_per_period as int;
    let p = schedule.period_seconds as int;
    let e = effective_repay as int;
    if 0 < e < a {
        assert(e / a == 0) by (nonlinear_arith)
            requires 0 < e < a;
    }
    if e >= a && (e / a) * p + schedule.next_due_ts <= u64::MAX {
        assert(1 <= e / a && e / a <= (e / a) * p) by (nonlinear_arith)
            requires e >= a, a > 0, p > 0;
        assert(e / a <= u64::MAX);
    }
}

/// An accepted oracle price is positive, and when a previous price was
/// accepted it is fresh and within the allowed deviation of that price.
pub proof fn lemma_accepted_oracle_price_within_bounds(
    cfg: OracleConfig,
    oracle_price: Option<i128>,
    now: u64,
    last_ts: Option<u64>,
    last_price: Option<i128>,
)
    requires
        spec_validate_oracle_price(cfg, oracle_price, now, last_ts, last_price) is Ok,
    ensures
        ({
            let (price, ts) = spec_validate_oracle_price(cfg, oracle_price, now, last_ts, last_price)->Ok_0;
            &&& oracle_price == Some(price)
            &&& price > 0
            &&& ts == now
            &&& (last_ts matches Some(t) ==> sat_sub_u64(now as int, t as int) <= cfg.max_age_seconds)
            &&& ((last_ts is Some && last_price is Some) ==>
                spec_deviation_bps(price as int, last_price->0 as int) <= cfg.max_deviation_bps)
        }),
{
}

/// Accrued interest never exceeds utilization: interest checkpoints, draws
/// and repayments keep `0 <= accrued_interest <= utilized_amount` when it
/// held before.
pub proof fn lemma_accrued_interest_within_utilization(
    line: CreditLineData,
    borrower: AccountId,
    amount: i128,
    now: u64,
    limits: DrawLimits,
    reserve_balance: Option<i128>,
    max_repay_amount: Option<i128>,
    funds: Option<TokenFunds>,
)
    requires
        0 <= line.accrued_interest <= line.utilized_amount,
    ensures
        spec_apply_accrual(line, now) matches Ok(after) ==>
            0 <= after.accrued_interest <= after.utilized_amount,
        spec_draw_credit(Some(line), borrower, amount, now, limits, reserve_balance) matches Ok(after) ==>
            0 <= after.accrued_interest <= after.utilized_amount,
        spec_repay_credit(Some(line), amount, now, max_repay_amount, funds) matches Ok((after, _)) ==>
            0 <= after.accrued_interest <= after.utilized_amount,
{
    if spec_apply_accrual(line, now) is Ok {
        lemma_accrual_adds_interest(line, now);
    }
}

/// Repaying, at the same time, what was just drawn restores the line's
/// utilization to its checkpointed value.
pub proof fn lemma_repay_undoes_draw(
    line: CreditLineData,
    borrower: AccountId,
    amount: i128,
    now: u64,
    limits: DrawLimits,
    reserve_balance: Option<i128>,
)
    requires
        line.utilized_amount >= 0,
        spec_draw_credit(Some(line), borrower, amount, now, limits, reserve_balance) is Ok,
    ensures
        spec_repay_credit(Some(spec_draw_credit(Some(line), borrower, amount, now, limits, reserve_balance)->Ok_0), amount, now, None, None)
            matches Ok((after, repaid)) && repaid == amount && after.utilized_amount == accrued(line, now).utilized_amount,
{
    lemma_accrual_adds_interest(line, now);
}

/// The per-draw cap bounds the amount of one draw only: a draw of at most
/// the cap never fails with `DrawExceedsMaxAmount`, whatever is already
/// drawn, and a draw above it does once the earlier checks pass.
pub proof fn lemma_draw_cap_bounds_amount_only(
    line: Option<CreditLineData>,
    borrower: AccountId,
    amount: i128,
    now: u64,
    limits: DrawLimits,
    reserve_balance: Option<i128>,
    cap: i128,
)
    requires
        limits.max_draw_amount == Some(cap),
    ensures
        amount <= cap ==> spec_draw_credit(line, borrower, amount, now, limits, reserve_balance)
            != Err::<CreditLineData, Failure>(Failure::Contract(ContractError::DrawExceedsMaxAmount)),
        (amount > cap && amount > 0 && !limits.draws_frozen && !limits.borrower_blocked
            && (line matches Some(l) && l.borrower@ == borrower@ && l.status == CreditStatus::Active)) ==>
            spec_draw_credit(line, borrower, amount, now, limits, reserve_balance)
                == Err::<CreditLineData, Failure>(Failure::Contract(ContractError::DrawExceedsMaxAmount)),
{
}

/// Every line that is not closed can be defaulted: after its interest
/// checkpoint it becomes `Defaulted` (with the checkpointed debt), and it
/// changes exactly when it was not defaulted already.
pub proof fn lemma_any_open_line_can_default(line: CreditLineData, now: u64)
    requires
        line.status != CreditStatus::Closed,
        spec_apply_accrual(line, now) is Ok,
    ensures
        spec_default_credit_line(false, Some(line), now) matches Ok(u) && {
            &&& u.line.status == CreditStatus::Defaulted
            &&& u.changed == (line.status != CreditStatus::Defaulted)
            &&& u.line.utilized_amount == accrued(line, now).utilized_amount
            &&& u.line.credit_limit == line.credit_limit
        },
{
    lemma_accrual_adds_interest(line, now);
}

/// The draw cooldown counts from the borrower's previous draw: a draw
/// before `last_draw_ts + min_draw_interval` is refused with
/// `DrawCooldownActive` once the earlier checks pass, and a draw at or after
/// it is never refused for the cooldown.
pub proof fn lemma_draw_cooldown_from_last_draw(
    line: Option<CreditLineData>,
    borrower: AccountId,
    amount: i128,
    now: u64,
    limits: DrawLimits,
    reserve_balance: Option<i128>,
    interval: u64,
    last: u64,
)
    requires
        limits.min_draw_interval == Some(interval),
        limits.last_draw_ts == Some(last),
        last + interval <= u64::MAX,
    ensures
        now >= last + interval ==> spec_draw_credit(line, borrower, amount, now, limits, reserve_balance)
            != Err::<CreditLineData, Failure>(Failure::Contract(ContractError::DrawCooldownActive)),
        (now < last + interval && amount > 0 && !limits.draws_frozen && !limits.borrower_blocked
            && (limits.max_draw_amount matches Some(m) ==> amount <= m)
            && (line matches Some(l) && l.borrower@ == borrower@ && l.status == CreditStatus::Active)) ==>
            spec_draw_credit(line, borrower, amount, now, limits, reserve_balance)
                == Err::<CreditLineData, Failure>(Failure::Contract(ContractError::DrawCooldownActive)),
{
}

} // verus!
