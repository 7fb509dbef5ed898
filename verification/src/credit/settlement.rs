//! Default-liquidation settlement and the oracle circuit breaker.

use vstd::prelude::*;
use crate::credit::accrual::{apply_accrual, spec_apply_accrual};
use crate::credit::lifecycle::settled_line;
use crate::credit::types::{CreditLineData, CreditStatus, ContractError, OracleConfig};
use crate::math::{compute_deviation_bps, deviation_computable, spec_deviation_bps};

verus! {

/// `a - b` floored at zero.
pub open spec fn sat_sub_u64(a: int, b: int) -> int {
    if a >= b { a - b } else { 0 }
}

/// What `validate_oracle_price` does: the `(price, timestamp)` to record as
/// the last accepted price, or the error.
pub open spec fn spec_validate_oracle_price(
    cfg: OracleConfig,
    oracle_price: Option<i128>,
    now: u64,
    last_ts: Option<u64>,
    last_price: Option<i128>,
) -> Result<(i128, u64), ContractError> {
    match oracle_price {
        None => Err(ContractError::OraclePriceInvalid),
        Some(price) => {
            if price <= 0 {
                Err(ContractError::OraclePriceInvalid)
            } else {
                match last_ts {
                    None => Ok((price, now)),
                    Some(ts) => {
                        if sat_sub_u64(now as int, ts as int) > cfg.max_age_seconds {
                            Err(ContractError::OraclePriceStale)
                        } else {
                            match last_price {
                                None => Ok((price, now)),
                                Some(lp) => {
                                    if !deviation_computable(price as int, lp as int) {
                                        Err(ContractError::OraclePriceInvalid)
                                    } else if spec_deviation_bps(price as int, lp as int) > cfg.max_deviation_bps {
                                        Err(ContractError::OraclePriceDeviation)
                                    } else {
                                        Ok((price, now))
                                    }
                                },
                            }
                        }
                    },
                }
            }
        },
    }
}

/// Validate the oracle price supplied with a settlement at time `now`: it
/// must be present and positive; when an earlier price was accepted at
/// `last_ts`, it must not be older than `max_age_seconds`, and the new price
/// may not deviate from the last accepted one by more than
/// `max_deviation_bps`. Returns the `(price, now)` to record.
pub fn validate_oracle_price(
    cfg: &OracleConfig,
    oracle_price: Option<i128>,
    now: u64,
    last_ts: Option<u64>,
    last_price: Option<i128>,
) -> (r: Result<(i128, u64), ContractError>)
    ensures
        r == spec_validate_oracle_price(*cfg, oracle_price, now, last_ts, last_price),
{
    let price = match oracle_price {
        Some(p) => p,
        None => return Err(ContractError::OraclePriceInvalid),
    };
    if price <= 0 {
        return Err(ContractError::OraclePriceInvalid);
    }
    if let Some(ts) = last_ts {
        let age = now.saturating_sub(ts);
        if age > cfg.max_age_seconds {
            return Err(ContractError::OraclePriceStale);
        }
        if let Some(lp) = last_price {
            let deviation = match compute_deviation_bps(price, lp) {
                Some(d) => d,
                None => return Err(ContractError::OraclePriceInvalid),
            };
            if deviation > cfg.max_deviation_bps as i128 {
                return Err(ContractError::OraclePriceDeviation);
            }
        }
    }
    Ok((price, now))
}

/// What `settle_default_liquidation` does.
pub open spec fn spec_settle_default_liquidation(
    paused: bool,
    line: Option<CreditLineData>,
    recovered_amount: i128,
    already_settled: bool,
    now: u64,
) -> Result<CreditLineData, ContractError> {
    if paused {
        Err(ContractError::Paused)
    } else if recovered_amount <= 0 {
        Err(ContractError::InvalidAmount)
    } else if already_settled {
        Err(ContractError::AlreadyInitialized)
    } else {
        match line {
            None => Err(ContractError::CreditLineNotFound),
            Some(stored) => match spec_apply_accrual(stored, now) {
                Err(e) => Err(e),
                Ok(l) => {
                    if l.status != CreditStatus::Defaulted {
                        Err(ContractError::CreditLineDefaulted)
                    } else if recovered_amount > l.utilized_amount {
                        Err(ContractError::OverLimit)
                    } else {
                        Ok(settled_line(l, recovered_amount))
                    }
                },
            },
        }
    }
}

/// Apply `recovered_amount` of auction proceeds to a defaulted line: at most
/// what is outstanding, once per `(borrower, settlement_id)`
/// (`already_settled` is the stored marker, which the caller records on
/// success). The line closes when nothing remains; the caller then clears
/// its repayment schedule. Interest is checkpointed at `now` before the
/// proceeds are applied.
pub fn settle_default_liquidation(
    paused: bool,
    line: Option<CreditLineData>,
    recovered_amount: i128,
    already_settled: bool,
    now: u64,
) -> (r: Result<CreditLineData, ContractError>)
    ensures
        r == spec_settle_default_liquidation(paused, line, recovered_amount, already_settled, now),
{
    if paused {
        return Err(ContractError::Paused);
    }
    if recovered_amount <= 0 {
        return Err(ContractError::InvalidAmount);
    }
    if already_settled {
        return Err(ContractError::AlreadyInitialized);
    }
    let l = match line {
        Some(l) => l,
        None => return Err(ContractError::CreditLineNotFound),
    };
    let l = match apply_accrual(l, now) {
        Ok(a) => a,
        Err(e) => return Err(e),
    };
    if l.status != CreditStatus::Defaulted {
        return Err(ContractError::CreditLineDefaulted);
    }
    if recovered_amount > l.utilized_amount {
        return Err(ContractError::OverLimit);
    }
    let remaining = l.utilized_amount - recovered_amount;
    let status = if remaining == 0 { CreditStatus::Closed } else { l.status };
    Ok(CreditLineData { utilized_amount: remaining, status, ..l })
}

/// Check the proceeds the liquidation auction reported against the amount
/// the admin asked to settle: they must agree when an auction contract is
/// configured (`auction_proceeds` is `None` when none is).
pub fn confirm_auction_proceeds(recovered_amount: i128, auction_proceeds: Option<i128>) -> (r: Result<(), ContractError>)
    ensures
        r is Ok <==> (auction_proceeds matches Some(p) ==> p == recovered_amount),
        r is Err ==> r == Err::<(), ContractError>(ContractError::InvalidAmount),
{
    match auction_proceeds {
        Some(p) => if p == recovered_amount { Ok(()) } else { Err(ContractError::InvalidAmount) },
        None => Ok(()),
    }
}

} // verus!
