//! Collateral deposits and withdrawals.
//!
//! Collateral is an optional floor: a withdrawal may not leave less than
//! `utilized * min_ratio_bps / 10_000` behind while the borrower owes
//! anything (the ratio defaults to 150%). Deposits are never restricted.

use vstd::prelude::*;
use crate::credit::types::{CreditLineData, ContractError, DEFAULT_MIN_COLLATERAL_RATIO_BPS};

verus! {

/// What `deposit_collateral` does: the new collateral balance, or the error.
pub open spec fn spec_deposit_collateral(balance: i128, amount: i128, token_configured: bool) -> Result<i128, ContractError> {
    if amount <= 0 {
        Err(ContractError::InvalidAmount)
    } else if !token_configured {
        Err(ContractError::MissingLiquidityToken)
    } else if balance + amount > i128::MAX {
        Err(ContractError::Overflow)
    } else {
        Ok((balance + amount) as i128)
    }
}

/// Deposit `amount` of collateral on top of `balance`. The caller moves the
/// tokens from the borrower to the contract when this succeeds.
pub fn deposit_collateral(balance: i128, amount: i128, token_configured: bool) -> (r: Result<i128, ContractError>)
    ensures
        r == spec_deposit_collateral(balance, amount, token_configured),
{
    if amount <= 0 {
        return Err(ContractError::InvalidAmount);
    }
    if !token_configured {
        return Err(ContractError::MissingLiquidityToken);
    }
    match balance.checked_add(amount) {
        Some(b) => Ok(b),
        None => Err(ContractError::Overflow),
    }
}

/// The collateral ratio in force: the configured one, else 150%.
pub open spec fn effective_min_ratio(min_ratio_bps: Option<u32>) -> int {
    match min_ratio_bps { Some(r) => r as int, None => DEFAULT_MIN_COLLATERAL_RATIO_BPS as int }
}

/// Collateral that must remain behind `utilized` of debt.
pub open spec fn required_collateral(utilized: int, min_ratio_bps: Option<u32>) -> int {
    utilized * effective_min_ratio(min_ratio_bps) / 10_000
}

/// What `withdraw_collateral` does: the balance left, or the error.
pub open spec fn spec_withdraw_collateral(
    balance: i128,
    amount: i128,
    line: Option<CreditLineData>,
    min_ratio_bps: Option<u32>,
    token_configured: bool,
) -> Result<i128, ContractError> {
    if amount <= 0 {
        Err(ContractError::InvalidAmount)
    } else if amount > balance {
        Err(ContractError::InsufficientRepaymentBalance)
    } else if line matches Some(l) && l.utilized_amount > 0
        && l.utilized_amount * effective_min_ratio(min_ratio_bps) > i128::MAX {
        Err(ContractError::Overflow)
    } else if line matches Some(l) && l.utilized_amount > 0
        && balance - amount < required_collateral(l.utilized_amount as int, min_ratio_bps) {
        Err(ContractError::CollateralRatioBelowMinimum)
    } else if !token_configured {
        Err(ContractError::MissingLiquidityToken)
    } else {
        Ok((balance - amount) as i128)
    }
}

/// Withdraw `amount` of collateral from `balance`, keeping the collateral
/// floor for the borrower's line (if any). The caller moves the tokens to the
/// borrower when this succeeds.
pub fn withdraw_collateral(
    balance: i128,
    amount: i128,
    line: &Option<CreditLineData>,
    min_ratio_bps: Option<u32>,
    token_configured: bool,
) -> (r: Result<i128, ContractError>)
    ensures
        r == spec_withdraw_collateral(balance, amount, *line, min_ratio_bps, token_configured),
        r is Ok ==> ((*line matches Some(l) && l.utilized_amount > 0) ==>
            r->Ok_0 >= required_collateral(line->0.utilized_amount as int, min_ratio_bps)),
{
    if amount <= 0 {
        return Err(ContractError::InvalidAmount);
    }
    if amount > balance {
        return Err(ContractError::InsufficientRepaymentBalance);
    }
    let post_balance = balance - amount;
    if let Some(l) = line {
        if l.utilized_amount > 0 {
            let ratio: i128 = match min_ratio_bps {
                Some(r) => r as i128,
                None => DEFAULT_MIN_COLLATERAL_RATIO_BPS as i128,
            };
            let scaled = match l.utilized_amount.checked_mul(ratio) {
                Some(s) => s,
                None => return Err(ContractError::Overflow),
            };
            proof {
                assert(scaled >= 0) by (nonlinear_arith)
                    requires scaled == l.utilized_amount * ratio, l.utilized_amount > 0, ratio >= 0;
            }
            let required = scaled / 10_000;
            if post_balance < required {
                return Err(ContractError::CollateralRatioBelowMinimum);
            }
        }
    }
    if !token_configured {
        return Err(ContractError::MissingLiquidityToken);
    }
    Ok(post_balance)
}

} // verus!
