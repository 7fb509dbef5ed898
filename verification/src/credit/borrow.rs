//! Drawing against a credit line and repaying it.
//!
//! Each operation takes the borrower's stored line (`None` when there is
//! none) and what the configured liquidity token reported, and returns the
//! line to store, or how the call fails.

use vstd::prelude::*;
use crate::account::AccountId;
use crate::credit::accrual::{apply_accrual, spec_apply_accrual};
use crate::credit::lifecycle::sat_add_u64;
use crate::credit::types::{CreditLineData, CreditStatus, ContractError, DrawLimits, Failure, PanicReason, TokenFunds};
use crate::math::{mul_div, spec_mul_div, Rounding};

verus! {

/// The borrower drew too recently for the configured cooldown.
pub open spec fn in_draw_cooldown(limits: DrawLimits, now: u64) -> bool {
    limits.min_draw_interval matches Some(interval) && limits.last_draw_ts matches Some(last)
        && now < sat_add_u64(last as int, interval as int)
}

/// The checks a draw fails before interest is checkpointed, if any.
pub open spec fn draw_gate_error(
    line: Option<CreditLineData>,
    borrower: AccountId,
    amount: i128,
    now: u64,
    limits: DrawLimits,
) -> Option<Failure> {
    if limits.draws_frozen {
        Some(Failure::Contract(ContractError::DrawsFrozen))
    } else if amount <= 0 {
        Some(Failure::Contract(ContractError::InvalidAmount))
    } else if line is None {
        Some(Failure::Contract(ContractError::CreditLineNotFound))
    } else if line->0.borrower@ != borrower@ {
        Some(Failure::Panic(PanicReason::BorrowerMismatch))
    } else if limits.borrower_blocked {
        Some(Failure::Contract(ContractError::BorrowerBlocked))
    } else if line->0.status == CreditStatus::Closed {
        Some(Failure::Contract(ContractError::CreditLineClosed))
    } else if line->0.status == CreditStatus::Suspended {
        Some(Failure::Contract(ContractError::CreditLineSuspended))
    } else if line->0.status == CreditStatus::Defaulted {
        Some(Failure::Contract(ContractError::CreditLineDefaulted))
    } else if line->0.status != CreditStatus::Active {
        Some(Failure::Contract(ContractError::InvalidAmount))
    } else if limits.max_draw_amount matches Some(m) && amount > m {
        Some(Failure::Contract(ContractError::DrawExceedsMaxAmount))
    } else if in_draw_cooldown(limits, now) {
        Some(Failure::Contract(ContractError::DrawCooldownActive))
    } else {
        None
    }
}

/// What `draw_credit` does.
pub open spec fn spec_draw_credit(
    line: Option<CreditLineData>,
    borrower: AccountId,
    amount: i128,
    now: u64,
    limits: DrawLimits,
    reserve_balance: Option<i128>,
) -> Result<CreditLineData, Failure> {
    if draw_gate_error(line, borrower, amount, now, limits) is Some {
        Err(draw_gate_error(line, borrower, amount, now, limits)->0)
    } else {
        match spec_apply_accrual(line->0, now) {
            Err(e) => Err(Failure::Contract(e)),
            Ok(l) => {
                if l.utilized_amount + amount > i128::MAX {
                    Err(Failure::Contract(ContractError::Overflow))
                } else if l.utilized_amount + amount > l.credit_limit {
                    Err(Failure::Contract(ContractError::OverLimit))
                } else if limits.max_total_exposure matches Some(cap) && limits.total_utilized + amount > cap {
                    Err(Failure::Contract(ContractError::ExposureCapExceeded))
                } else if reserve_balance matches Some(b) && b < amount {
                    Err(Failure::Panic(PanicReason::InsufficientLiquidityReserve))
                } else {
                    Ok(CreditLineData { utilized_amount: (l.utilized_amount + amount) as i128, ..l })
                }
            },
        }
    }
}

/// Draw `amount` against `borrower`'s line at time `now`.
///
/// The draw is refused while draws are frozen, for a blocked borrower, above
/// the per-draw cap, within the cooldown after the previous draw, on a line
/// that is not `Active`, beyond the credit limit, or beyond the protocol's
/// exposure cap. Interest is checkpointed first. `reserve_balance` is the
/// liquidity token's balance at the liquidity source, or `None` when no
/// liquidity token is configured (then no reserve check applies and no tokens
/// move). On success the line's utilization grows by `amount`; the caller
/// transfers `amount` from the reserve to the borrower.
pub fn draw_credit(
    line: Option<CreditLineData>,
    borrower: &AccountId,
    amount: i128,
    now: u64,
    limits: &DrawLimits,
    reserve_balance: Option<i128>,
) -> (r: Result<CreditLineData, Failure>)
    ensures
        r == spec_draw_credit(line, *borrower, amount, now, *limits, reserve_balance),
{
    if limits.draws_frozen {
        return Err(Failure::Contract(ContractError::DrawsFrozen));
    }
    if amount <= 0 {
        return Err(Failure::Contract(ContractError::InvalidAmount));
    }
    let l = match line {
        Some(l) => l,
        None => return Err(Failure::Contract(ContractError::CreditLineNotFound)),
    };
    if !l.borrower.same_as(borrower) {
        return Err(Failure::Panic(PanicReason::BorrowerMismatch));
    }
    if limits.borrower_blocked {
        return Err(Failure::Contract(ContractError::BorrowerBlocked));
    }
    if l.status == CreditStatus::Closed {
        return Err(Failure::Contract(ContractError::CreditLineClosed));
    }
    if l.status == CreditStatus::Suspended {
        return Err(Failure::Contract(ContractError::CreditLineSuspended));
    }
    if l.status == CreditStatus::Defaulted {
        return Err(Failure::Contract(ContractError::CreditLineDefaulted));
    }
    if l.status != CreditStatus::Active {
        return Err(Failure::Contract(ContractError::InvalidAmount));
    }
    if let Some(m) = limits.max_draw_amount {
        if amount > m {
            return Err(Failure::Contract(ContractError::DrawExceedsMaxAmount));
        }
    }
    if let Some(interval) = limits.min_draw_interval {
        if let Some(last) = limits.last_draw_ts {
            if now < last.saturating_add(interval) {
                return Err(Failure::Contract(ContractError::DrawCooldownActive));
            }
        }
    }
    let l = match apply_accrual(l, now) {
        Ok(l) => l,
        Err(e) => return Err(Failure::Contract(e)),
    };
    let updated_utilized = match l.utilized_amount.checked_add(amount) {
        Some(u) => u,
        None => return Err(Failure::Contract(ContractError::Overflow)),
    };
    if updated_utilized > l.credit_limit {
        return Err(Failure::Contract(ContractError::OverLimit));
    }
    if let Some(cap) = limits.max_total_exposure {
        let exceeds = match limits.total_utilized.checked_add(amount) {
            Some(t) => t > cap,
            None => true,
        };
        if exceeds {
            return Err(Failure::Contract(ContractError::ExposureCapExceeded));
        }
    }
    if let Some(balance) = reserve_balance {
        if balance < amount {
            return Err(Failure::Panic(PanicReason::InsufficientLiquidityReserve));
        }
    }
    Ok(CreditLineData { utilized_amount: updated_utilized, ..l })
}

/// The part of a requested repayment that is applied: the request, capped at
/// what is outstanding.
pub open spec fn spec_effective_repay(amount: i128, utilized: i128) -> i128 {
    if amount > utilized { utilized } else { amount }
}

/// The interest component of a repayment: the repayment, capped at the
/// accrued interest.
pub open spec fn spec_interest_repaid(effective_repay: i128, accrued: i128) -> i128 {
    if effective_repay <= accrued { effective_repay } else { accrued }
}

/// The line after a repayment of `effective_repay`, of which
/// `interest_repaid` is interest: accrued interest drops by the interest
/// (to zero when that would leave the `i128` range), and utilization drops by
/// the repayment, never below zero.
pub open spec fn spec_apply_repayment(line: CreditLineData, effective_repay: i128, interest_repaid: i128) -> CreditLineData {
    let accrued = line.accrued_interest - interest_repaid;
    let utilized = crate::math::spec_saturating_sub_i128(line.utilized_amount as int, effective_repay as int);
    CreditLineData {
        accrued_interest: if i128::MIN <= accrued <= i128::MAX { accrued as i128 } else { 0 },
        utilized_amount: if utilized >= 0 { utilized as i128 } else { 0 },
        ..line
    }
}

/// Post-transfer repayment bookkeeping shared by both repayment entrypoints.
pub fn repay_credit_internal(line: CreditLineData, effective_repay: i128, interest_repaid: i128) -> (r: CreditLineData)
    ensures
        r == spec_apply_repayment(line, effective_repay, interest_repaid),
{
    let accrued_interest = match line.accrued_interest.checked_sub(interest_repaid) {
        Some(a) => a,
        None => 0,
    };
    let reduced = crate::math::saturating_sub_i128(line.utilized_amount, effective_repay);
    let utilized_amount = if reduced >= 0 { reduced } else { 0 };
    CreditLineData { accrued_interest, utilized_amount, ..line }
}

/// The checks a repayment passes before any collateral is released: the
/// line with its interest checkpointed at `now`, and the repayment they
/// settle on. `max_repay_amount` is the per-repayment cap, when one is set.
pub open spec fn spec_repay_gate(
    line: Option<CreditLineData>,
    amount: i128,
    now: u64,
    max_repay_amount: Option<i128>,
    funds: Option<TokenFunds>,
) -> Result<(CreditLineData, i128), Failure> {
    if amount <= 0 {
        Err(Failure::Contract(ContractError::InvalidAmount))
    } else if max_repay_amount matches Some(m) && amount > m {
        Err(Failure::Contract(ContractError::RepayExceedsMaxAmount))
    } else {
        match line {
            None => Err(Failure::Contract(ContractError::CreditLineNotFound)),
            Some(l) => {
                if l.status == CreditStatus::Closed {
                    Err(Failure::Contract(ContractError::CreditLineClosed))
                } else {
                    match spec_apply_accrual(l, now) {
                        Err(e) => Err(Failure::Contract(e)),
                        Ok(a) => {
                            let effective = spec_effective_repay(amount, a.utilized_amount);
                            if effective > 0 && (funds matches Some(f) && f.allowance < effective) {
                                Err(Failure::Contract(ContractError::InsufficientRepaymentAllowance))
                            } else if effective > 0 && (funds matches Some(f) && f.balance < effective) {
                                Err(Failure::Contract(ContractError::InsufficientRepaymentBalance))
                            } else {
                                Ok((a, effective))
                            }
                        },
                    }
                }
            },
        }
    }
}

/// Result of a repayment.
pub struct RepayOutcome {
    /// The line to store.
    pub line: CreditLineData,
    /// The amount actually repaid (the request, capped at the outstanding
    /// utilization); the caller moves it from the borrower to the reserve when
    /// a liquidity token is configured and it is positive.
    pub effective_repay: i128,
}

/// What `repay_credit` does: the line to store and the amount repaid.
pub open spec fn spec_repay_credit(
    line: Option<CreditLineData>,
    amount: i128,
    now: u64,
    max_repay_amount: Option<i128>,
    funds: Option<TokenFunds>,
) -> Result<(CreditLineData, i128), Failure> {
    match spec_repay_gate(line, amount, now, max_repay_amount, funds) {
        Err(e) => Err(e),
        Ok((l, effective)) => {
            Ok((spec_apply_repayment(l, effective, spec_interest_repaid(effective, l.accrued_interest)), effective))
        },
    }
}

/// Repay up to `amount` of the borrower's debt at time `now`, after
/// checkpointing its interest. Allowed in every status but `Closed`, and
/// never affected by a draw freeze. `funds` is what the liquidity token
/// reports of the borrower, or `None` when no liquidity token is configured.
pub fn repay_credit(
    line: Option<CreditLineData>,
    amount: i128,
    now: u64,
    max_repay_amount: Option<i128>,
    funds: Option<TokenFunds>,
) -> (r: Result<RepayOutcome, Failure>)
    ensures
        match r {
            Ok(o) => spec_repay_credit(line, amount, now, max_repay_amount, funds)
                == Ok::<(CreditLineData, i128), Failure>((o.line, o.effective_repay)),
            Err(e) => spec_repay_credit(line, amount, now, max_repay_amount, funds)
                == Err::<(CreditLineData, i128), Failure>(e),
        },
{
    let (l, effective_repay) = match repay_gate(line, amount, now, max_repay_amount, funds) {
        Ok(x) => x,
        Err(e) => return Err(e),
    };
    let interest_repaid = if effective_repay <= l.accrued_interest { effective_repay } else { l.accrued_interest };
    let line = repay_credit_internal(l, effective_repay, interest_repaid);
    Ok(RepayOutcome { line, effective_repay })
}

fn repay_gate(
    line: Option<CreditLineData>,
    amount: i128,
    now: u64,
    max_repay_amount: Option<i128>,
    funds: Option<TokenFunds>,
) -> (r: Result<(CreditLineData, i128), Failure>)
    ensures
        match r {
            Ok(x) => spec_repay_gate(line, amount, now, max_repay_amount, funds) == Ok::<(CreditLineData, i128), Failure>(x),
            Err(e) => spec_repay_gate(line, amount, now, max_repay_amount, funds) == Err::<(CreditLineData, i128), Failure>(e),
        },
{
    if amount <= 0 {
        return Err(Failure::Contract(ContractError::InvalidAmount));
    }
    if let Some(m) = max_repay_amount {
        if amount > m {
            return Err(Failure::Contract(ContractError::RepayExceedsMaxAmount));
        }
    }
    let l = match line {
        Some(l) => l,
        None => return Err(Failure::Contract(ContractError::CreditLineNotFound)),
    };
    if l.status == CreditStatus::Closed {
        return Err(Failure::Contract(ContractError::CreditLineClosed));
    }
    let l = match apply_accrual(l, now) {
        Ok(a) => a,
        Err(e) => return Err(Failure::Contract(e)),
    };
    let effective_repay = if amount > l.utilized_amount { l.utilized_amount } else { amount };
    if effective_repay > 0 {
        if let Some(f) = funds {
            if f.allowance < effective_repay {
                return Err(Failure::Contract(ContractError::InsufficientRepaymentAllowance));
            }
            if f.balance < effective_repay {
                return Err(Failure::Contract(ContractError::InsufficientRepaymentBalance));
            }
        }
    }
    Ok((l, effective_repay))
}

/// Collateral released by a repayment of `effective_repay` against
/// `utilized_before` of debt secured by `collateral`: all of it on a full
/// repayment, else the proportional share rounded down; nothing when any of
/// the three is not positive.
pub open spec fn spec_released_collateral(collateral: i128, effective_repay: i128, utilized_before: i128) -> int {
    if collateral > 0 && effective_repay > 0 && utilized_before > 0 {
        if effective_repay >= utilized_before {
            collateral as int
        } else {
            spec_mul_div(collateral as int, effective_repay as int, utilized_before as int, Rounding::Floor)
        }
    } else {
        0
    }
}

/// Whether computing the proportional release overflows the `u128` product.
pub open spec fn release_overflows(collateral: i128, effective_repay: i128, utilized_before: i128) -> bool {
    &&& collateral > 0 && effective_repay > 0 && utilized_before > 0
    &&& effective_repay < utilized_before
    &&& collateral * effective_repay > u128::MAX
}

/// Result of a repayment that also releases collateral.
pub struct RepayReleaseOutcome {
    /// The line to store.
    pub line: CreditLineData,
    /// The amount actually repaid.
    pub effective_repay: i128,
    /// The collateral returned to the borrower.
    pub released: i128,
    /// The borrower's collateral balance after the release.
    pub collateral_balance: i128,
}

/// What `repay_and_release_collateral` does: line, repayment, release and
/// remaining collateral.
pub open spec fn spec_repay_and_release(
    line: Option<CreditLineData>,
    amount: i128,
    now: u64,
    max_repay_amount: Option<i128>,
    funds: Option<TokenFunds>,
    collateral: i128,
) -> Result<(CreditLineData, i128, i128, i128), Failure> {
    match spec_repay_gate(line, amount, now, max_repay_amount, funds) {
        Err(e) => Err(e),
        Ok((l, effective)) => {
            if release_overflows(collateral, effective, l.utilized_amount) {
                Err(Failure::Panic(PanicReason::CollateralReleaseOverflow))
            } else {
                let released = spec_released_collateral(collateral, effective, l.utilized_amount);
                Ok((
                    spec_apply_repayment(l, effective, spec_interest_repaid(effective, l.accrued_interest)),
                    effective,
                    released as i128,
                    (collateral - released) as i128,
                ))
            }
        },
    }
}

/// Repay up to `amount` and release the proportional share of the borrower's
/// `collateral`: `collateral * repaid / utilized_before`, rounded down, or
/// all of it when the debt is fully repaid. The interest is checkpointed at
/// `now` first, so `utilized_before` includes it.
pub fn repay_and_release_collateral(
    line: Option<CreditLineData>,
    amount: i128,
    now: u64,
    max_repay_amount: Option<i128>,
    funds: Option<TokenFunds>,
    collateral: i128,
) -> (r: Result<RepayReleaseOutcome, Failure>)
    ensures
        match r {
            Ok(o) => spec_repay_and_release(line, amount, now, max_repay_amount, funds, collateral)
                == Ok::<(CreditLineData, i128, i128, i128), Failure>((o.line, o.effective_repay, o.released, o.collateral_balance)),
            Err(e) => spec_repay_and_release(line, amount, now, max_repay_amount, funds, collateral)
                == Err::<(CreditLineData, i128, i128, i128), Failure>(e),
        },
{
    let (l, effective_repay) = match repay_gate(line, amount, now, max_repay_amount, funds) {
        Ok(x) => x,
        Err(e) => return Err(e),
    };
    let previous_utilized = l.utilized_amount;
    let mut released: i128 = 0;
    if collateral > 0 && effective_repay > 0 && previous_utilized > 0 {
        if effective_repay >= previous_utilized {
            released = collateral;
        } else {
            let c = collateral as u128;
            let e = effective_repay as u128;
            let u = previous_utilized as u128;
            if c.checked_mul(e).is_none() {
                return Err(Failure::Panic(PanicReason::CollateralReleaseOverflow));
            }
            let share = mul_div(c, e, u, Rounding::Floor);
            proof {
                lemma_share_at_most(c as int, e as int, u as int);
            }
            released = share as i128;
        }
    }
    let interest_repaid = if effective_repay <= l.accrued_interest { effective_repay } else { l.accrued_interest };
    let line = repay_credit_internal(l, effective_repay, interest_repaid);
    Ok(RepayReleaseOutcome { line, effective_repay, released, collateral_balance: collateral - released })
}

proof fn lemma_share_at_most(c: int, e: int, u: int)
    requires
        0 < c,
        0 < e < u,
    ensures
        0 <= c * e / u <= c,
{
    assert(0 <= c * e / u <= c) by (nonlinear_arith)
        requires 0 < c, 0 < e < u;
}

} // verus!
