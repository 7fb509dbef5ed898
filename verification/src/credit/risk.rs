//! Risk parameters: the score-driven rate formula and the admin update of a
//! line's limit, rate and score.

use vstd::prelude::*;
use crate::credit::accrual::{apply_accrual, spec_apply_accrual};
use crate::credit::lifecycle::{validate_credit_limit_bounds, within_bounds};
use crate::credit::types::{
    CreditLineData, ContractError, RateFormulaConfig, MAX_INTEREST_RATE_BPS, MAX_RISK_SCORE,
};

verus! {

/// `base + score * slope`, each step saturating at `u32::MAX`.
pub open spec fn raw_rate(cfg: RateFormulaConfig, score: u32) -> int {
    let product = if score * cfg.slope_bps_per_score > u32::MAX {
        u32::MAX as int
    } else {
        score * cfg.slope_bps_per_score
    };
    if cfg.base_rate_bps + product > u32::MAX { u32::MAX as int } else { cfg.base_rate_bps + product }
}

/// The formula's ceiling: its maximum, capped at the protocol-wide 10 000 bps.
pub open spec fn rate_ceiling(cfg: RateFormulaConfig) -> int {
    if cfg.max_rate_bps < 10_000 { cfg.max_rate_bps as int } else { 10_000 }
}

/// The formula's floor does not exceed its ceiling, so the clamp is defined.
pub open spec fn rate_formula_usable(cfg: RateFormulaConfig) -> bool {
    cfg.min_rate_bps <= rate_ceiling(cfg)
}

/// `x` clamped to `[lo, hi]`.
pub open spec fn clamp(x: int, lo: int, hi: int) -> int {
    if x < lo { lo } else if x > hi { hi } else { x }
}

/// The rate the formula gives a score: `clamp(base + score * slope, min,
/// min(max, 10 000))`.
pub open spec fn spec_rate_from_score(cfg: RateFormulaConfig, score: u32) -> int {
    clamp(raw_rate(cfg, score), cfg.min_rate_bps as int, rate_ceiling(cfg))
}

/// Whether the formula's clamp is defined for `cfg`.
pub fn rate_formula_is_usable(cfg: &RateFormulaConfig) -> (r: bool)
    ensures
        r == rate_formula_usable(*cfg),
{
    let ceiling = if cfg.max_rate_bps < MAX_INTEREST_RATE_BPS { cfg.max_rate_bps } else { MAX_INTEREST_RATE_BPS };
    cfg.min_rate_bps <= ceiling
}

/// The interest rate the formula assigns to `score`.
pub fn compute_rate_from_score(cfg: &RateFormulaConfig, score: u32) -> (r: u32)
    requires
        rate_formula_usable(*cfg),
    ensures
        r == spec_rate_from_score(*cfg, score),
{
    let product = match score.checked_mul(cfg.slope_bps_per_score) {
        Some(p) => p,
        None => u32::MAX,
    };
    let raw = cfg.base_rate_bps.saturating_add(product);
    let ceiling = if cfg.max_rate_bps < MAX_INTEREST_RATE_BPS { cfg.max_rate_bps } else { MAX_INTEREST_RATE_BPS };
    if raw < cfg.min_rate_bps {
        cfg.min_rate_bps
    } else if raw > ceiling {
        ceiling
    } else {
        raw
    }
}

/// The rate an update applies: the formula's when one is configured, else
/// the requested one.
pub open spec fn effective_rate(formula: Option<RateFormulaConfig>, risk_score: u32, requested: u32) -> int {
    match formula {
        Some(cfg) => spec_rate_from_score(cfg, risk_score),
        None => requested as int,
    }
}

/// `|a - b|`.
pub open spec fn abs_diff(a: int, b: int) -> int {
    if a >= b { a - b } else { b - a }
}

/// What `update_risk_parameters` does.
pub open spec fn spec_update_risk_parameters(
    paused: bool,
    line: Option<CreditLineData>,
    credit_limit: i128,
    interest_rate_bps: u32,
    risk_score: u32,
    bounds: (Option<i128>, Option<i128>),
    formula: Option<RateFormulaConfig>,
    max_rate_change_bps: Option<u32>,
    now: u64,
) -> Result<CreditLineData, ContractError> {
    if paused {
        Err(ContractError::Paused)
    } else {
        match line {
            None => Err(ContractError::CreditLineNotFound),
            Some(l) => {
                if credit_limit < 0 {
                    Err(ContractError::NegativeLimit)
                } else if interest_rate_bps > 10_000 {
                    Err(ContractError::RateTooHigh)
                } else if risk_score > 100 {
                    Err(ContractError::ScoreTooHigh)
                } else if !within_bounds(bounds, credit_limit) {
                    Err(ContractError::LimitOutOfBounds)
                } else {
                    match spec_apply_accrual(l, now) {
                        Err(e) => Err(e),
                        Ok(a) => {
                            let rate = effective_rate(formula, risk_score, interest_rate_bps);
                            if credit_limit < a.utilized_amount {
                                Err(ContractError::LimitDecreaseRequiresRepayment)
                            } else if max_rate_change_bps matches Some(m)
                                && abs_diff(rate, a.interest_rate_bps as int) > m {
                                Err(ContractError::RateTooHigh)
                            } else {
                                Ok(CreditLineData {
                                    credit_limit,
                                    interest_rate_bps: rate as u32,
                                    risk_score,
                                    last_rate_update_ts: if rate != a.interest_rate_bps { now } else { a.last_rate_update_ts },
                                    ..a
                                })
                            }
                        },
                    }
                }
            },
        }
    }
}

/// Update a line's credit limit, interest rate and risk score at time `now`
/// (admin only), checkpointing its interest first. The limit must be
/// non-negative, within the configured bounds and at least the outstanding
/// utilization; the rate at most 10 000 bps; the score at most 100. With a
/// rate formula configured, the rate comes from the score instead of the
/// request. A configured maximum rate change bounds how far the rate may move
/// in one update; a rate change stamps `last_rate_update_ts`.
pub fn update_risk_parameters(
    paused: bool,
    line: Option<CreditLineData>,
    credit_limit: i128,
    interest_rate_bps: u32,
    risk_score: u32,
    bounds: (Option<i128>, Option<i128>),
    formula: Option<RateFormulaConfig>,
    max_rate_change_bps: Option<u32>,
    now: u64,
) -> (r: Result<CreditLineData, ContractError>)
    requires
        formula matches Some(cfg) ==> rate_formula_usable(cfg),
    ensures
        r == spec_update_risk_parameters(
            paused, line, credit_limit, interest_rate_bps, risk_score, bounds, formula, max_rate_change_bps, now,
        ),
{
    if paused {
        return Err(ContractError::Paused);
    }
    let l = match line {
        Some(l) => l,
        None => return Err(ContractError::CreditLineNotFound),
    };
    if credit_limit < 0 {
        return Err(ContractError::NegativeLimit);
    }
    if interest_rate_bps > MAX_INTEREST_RATE_BPS {
        return Err(ContractError::RateTooHigh);
    }
    if risk_score > MAX_RISK_SCORE {
        return Err(ContractError::ScoreTooHigh);
    }
    if let Err(e) = validate_credit_limit_bounds(bounds, credit_limit) {
        return Err(e);
    }
    let a = match apply_accrual(l, now) {
        Ok(a) => a,
        Err(e) => return Err(e),
    };
    if credit_limit < a.utilized_amount {
        return Err(ContractError::LimitDecreaseRequiresRepayment);
    }
    let rate = match formula {
        Some(cfg) => compute_rate_from_score(&cfg, risk_score),
        None => interest_rate_bps,
    };
    if let Some(m) = max_rate_change_bps {
        let delta = if rate >= a.interest_rate_bps { rate - a.interest_rate_bps } else { a.interest_rate_bps - rate };
        if delta > m {
            return Err(ContractError::RateTooHigh);
        }
    }
    let last_rate_update_ts = if rate != a.interest_rate_bps { now } else { a.last_rate_update_ts };
    Ok(CreditLineData { credit_limit, interest_rate_bps: rate, risk_score, last_rate_update_ts, ..a })
}

/// The formula's rate always lies between its floor and its ceiling, hence
/// never above 10 000 bps, and equals `base + score * slope` whenever that
/// lies in between.
pub proof fn lemma_rate_within_bounds(cfg: RateFormulaConfig, score: u32)
    requires
        rate_formula_usable(cfg),
    ensures
        cfg.min_rate_bps <= spec_rate_from_score(cfg, score) <= rate_ceiling(cfg) <= 10_000,
        spec_rate_from_score(cfg, score) <= cfg.max_rate_bps,
        (cfg.min_rate_bps <= raw_rate(cfg, score) <= rate_ceiling(cfg)) ==>
            spec_rate_from_score(cfg, score) == raw_rate(cfg, score),
{
}

/// Clamping the formula's rate again to `[floor, ceiling]` is one clamp of
/// the raw rate to the combined bounds: the order in which the bounds are
/// applied does not matter.
pub proof fn lemma_clamp_ordering(cfg: RateFormulaConfig, score: u32, floor: int, ceiling: int)
    requires
        rate_formula_usable(cfg),
        floor <= ceiling,
    ensures
        clamp(spec_rate_from_score(cfg, score), floor, ceiling) == clamp(
            raw_rate(cfg, score),
            clamp(cfg.min_rate_bps as int, floor, ceiling),
            clamp(rate_ceiling(cfg), floor, ceiling),
        ),
{
}

/// An accepted update leaves a line whose limit covers its utilization,
/// lies within the bounds, and whose rate and score are in range.
pub proof fn lemma_update_risk_parameters_keeps_line_valid(
    paused: bool,
    line: Option<CreditLineData>,
    credit_limit: i128,
    interest_rate_bps: u32,
    risk_score: u32,
    bounds: (Option<i128>, Option<i128>),
    formula: Option<RateFormulaConfig>,
    max_rate_change_bps: Option<u32>,
    now: u64,
)
    requires
        formula matches Some(cfg) ==> rate_formula_usable(cfg),
    ensures
        spec_update_risk_parameters(paused, line, credit_limit, interest_rate_bps, risk_score, bounds, formula, max_rate_change_bps, now)
            matches Ok(after) ==> {
            &&& after.credit_limit == credit_limit
            &&& after.utilized_amount <= after.credit_limit
            &&& within_bounds(bounds, after.credit_limit)
            &&& after.interest_rate_bps <= 10_000
            &&& after.risk_score == risk_score <= 100
            &&& (formula matches Some(cfg) ==> after.interest_rate_bps == spec_rate_from_score(cfg, risk_score))
        },
{
    if let Some(cfg) = formula {
        lemma_rate_within_bounds(cfg, risk_score);
    }
}

/// An accepted update moves the line's rate by at most the configured
/// maximum change, measured from the rate after the interest checkpoint,
/// whether the new rate was requested or comes from the formula; without a
/// formula the new rate is the requested one.
pub proof fn lemma_rate_change_within_limit(
    paused: bool,
    line: Option<CreditLineData>,
    credit_limit: i128,
    interest_rate_bps: u32,
    risk_score: u32,
    bounds: (Option<i128>, Option<i128>),
    formula: Option<RateFormulaConfig>,
    max_rate_change_bps: Option<u32>,
    now: u64,
)
    requires
        formula matches Some(cfg) ==> rate_formula_usable(cfg),
    ensures
        spec_update_risk_parameters(paused, line, credit_limit, interest_rate_bps, risk_score, bounds, formula, max_rate_change_bps, now)
            matches Ok(after) ==> {
            let before = spec_apply_accrual(line->0, now)->Ok_0;
            &&& line is Some && spec_apply_accrual(line->0, now) is Ok
            &&& (max_rate_change_bps matches Some(m) ==> {
                &&& after.interest_rate_bps - before.interest_rate_bps <= m
                &&& before.interest_rate_bps - after.interest_rate_bps <= m
            })
            &&& (formula is None ==> after.interest_rate_bps == interest_rate_bps)
            &&& (after.interest_rate_bps != before.interest_rate_bps ==> after.last_rate_update_ts == now)
        },
{
    if let Some(cfg) = formula {
        lemma_rate_within_bounds(cfg, risk_score);
    }
}

} // verus!
