//! Decay curves for Dutch-style liquidation auctions.

use vstd::prelude::*;

verus! {

/// Represents the decay curve used in the Dutch auction.
#[derive(Clone, Copy, Debug)]
pub enum DecayCurve {
    /// Linear decay: `price = start_price - rate * time`.
    Linear { rate: u128 },
    /// Stepped decay: the price drops by `step_size` every `interval` time units.
    Stepped { step_size: u128, interval: u64 },
    /// Exponential decay with a fixed-point factor: each time unit the price
    /// becomes `price * factor / scale`.
    Exponential { factor: u128, scale: u128 },
}

/// Errors for curve calculations.
#[derive(Clone, Copy, Debug, PartialEq, Eq, Structural)]
pub enum CurveError {
    Overflow,
    InvalidInput,
}

/// `a - b`, floored at zero, as `u128::saturating_sub` computes it.
pub open spec fn sat_sub(a: int, b: int) -> int {
    if a >= b { a - b } else { 0 }
}

/// The price after `n` exponential steps, or `None` when an intermediate
/// product `price * factor` leaves the `u128` range.
pub open spec fn exp_decay(start: int, factor: int, scale: int, n: nat) -> Option<int>
    decreases n,
{
    if n == 0 {
        Some(start)
    } else {
        match exp_decay(start, factor, scale, (n - 1) as nat) {
            None => None,
            Some(p) => if p * factor > u128::MAX { None } else { Some((p * factor) / scale) },
        }
    }
}

/// What [`calculate_price`] returns for the given inputs.
pub open spec fn spec_curve_price(start_price: u128, elapsed: u64, curve: DecayCurve) -> Result<u128, CurveError> {
    match curve {
        DecayCurve::Linear { rate } => {
            if rate * elapsed > u128::MAX {
                Err(CurveError::Overflow)
            } else {
                Ok(sat_sub(start_price as int, rate * elapsed) as u128)
            }
        },
        DecayCurve::Stepped { step_size, interval } => {
            if interval == 0 {
                Err(CurveError::InvalidInput)
            } else if step_size * (elapsed / interval) > u128::MAX {
                Err(CurveError::Overflow)
            } else {
                Ok(sat_sub(start_price as int, step_size * (elapsed / interval)) as u128)
            }
        },
        DecayCurve::Exponential { factor, scale } => {
            if scale == 0 {
                Err(CurveError::InvalidInput)
            } else {
                match exp_decay(start_price as int, factor as int, scale as int, elapsed as nat) {
                    None => Err(CurveError::Overflow),
                    Some(p) => Ok(p as u128),
                }
            }
        },
    }
}

/// Each exponential step keeps the price inside `u128` when it succeeds.
proof fn lemma_exp_decay_in_range(start: int, factor: int, scale: int, n: nat)
    requires
        0 <= start <= u128::MAX,
        0 <= factor,
        scale > 0,
    ensures
        exp_decay(start, factor, scale, n) matches Some(p) ==> 0 <= p <= u128::MAX,
    decreases n,
{
    if n > 0 {
        lemma_exp_decay_in_range(start, factor, scale, (n - 1) as nat);
        if let Some(p) = exp_decay(start, factor, scale, (n - 1) as nat) {
            if p * factor <= u128::MAX {
                assert(0 <= p * factor) by (nonlinear_arith)
                    requires 0 <= p, 0 <= factor;
                assert((p * factor) / scale <= p * factor) by (nonlinear_arith)
                    requires 0 <= p * factor, scale > 0;
            }
        }
    }
}

/// Calculates the price reached after `elapsed` time units under `curve`.
///
/// - `Linear`: `start_price - rate * elapsed`, floored at zero.
/// - `Stepped`: `start_price - step_size * (elapsed / interval)`, floored at zero.
/// - `Exponential`: `elapsed` successive steps `price = price * factor / scale`.
///
/// Fails with `InvalidInput` on a zero `interval` or `scale`, and with
/// `Overflow` when a product leaves the `u128` range.
pub fn calculate_price(start_price: u128, elapsed: u64, curve: &DecayCurve) -> (r: Result<u128, CurveError>)
    ensures
        r == spec_curve_price(start_price, elapsed, *curve),
{
    match curve {
        DecayCurve::Linear { rate } => {
            let decay = match rate.checked_mul(elapsed as u128) {
                Some(d) => d,
                None => return Err(CurveError::Overflow),
            };
            Ok(start_price.saturating_sub(decay))
        },
        DecayCurve::Stepped { step_size, interval } => {
            if *interval == 0 {
                return Err(CurveError::InvalidInput);
            }
            let steps = elapsed / *interval;
            let decay = match step_size.checked_mul(steps as u128) {
                Some(d) => d,
                None => return Err(CurveError::Overflow),
            };
            Ok(start_price.saturating_sub(decay))
        },
        DecayCurve::Exponential { factor, scale } => {
            if *scale == 0 {
                return Err(CurveError::InvalidInput);
            }
            let factor = *factor;
            let scale = *scale;
            let mut price = start_price;
            let mut i: u64 = 0;
            while i < elapsed
                invariant
                    i <= elapsed,
                    scale > 0,
                    *curve == (DecayCurve::Exponential { factor, scale }),
                    exp_decay(start_price as int, factor as int, scale as int, i as nat) == Some(price as int),
                decreases elapsed - i,
            {
                let product = match price.checked_mul(factor) {
                    Some(p) => p,
                    None => {
                        proof {
                            let n = (i + 1) as nat;
                            assert(exp_decay(start_price as int, factor as int, scale as int, n) == None::<int>);
                            lemma_exp_decay_stays_none(start_price as int, factor as int, scale as int, n, elapsed as nat);
                        }
                        return Err(CurveError::Overflow);
                    },
                };
                price = product / scale;
                i = i + 1;
            }
            Ok(price)
        },
    }
}

/// Once an exponential step overflows, every later step reports the overflow.
proof fn lemma_exp_decay_stays_none(start: int, factor: int, scale: int, n: nat, m: nat)
    requires
        n <= m,
        exp_decay(start, factor, scale, n) is None,
    ensures
        exp_decay(start, factor, scale, m) is None,
    decreases m - n,
{
    if n < m {
        lemma_exp_decay_stays_none(start, factor, scale, (n + 1) as nat, m);
    }
}

/// A linear or stepped curve never prices above its starting price, and an
/// exponential curve whose factor does not exceed its scale never does either.
pub proof fn lemma_curve_price_at_most_start(start_price: u128, elapsed: u64, curve: DecayCurve)
    requires
        curve matches DecayCurve::Exponential { factor, scale } ==> factor <= scale,
    ensures
        spec_curve_price(start_price, elapsed, curve) matches Ok(p) ==> p <= start_price,
{
    if let DecayCurve::Exponential { factor, scale } = curve {
        if scale > 0 {
            lemma_exp_decay_non_increasing(start_price as int, factor as int, scale as int, 0, elapsed as nat);
            lemma_exp_decay_nonneg(start_price as int, factor as int, scale as int, elapsed as nat);
        }
    }
}

/// With `factor <= scale`, more exponential steps never raise the price.
pub proof fn lemma_exp_decay_non_increasing(start: int, factor: int, scale: int, n: nat, m: nat)
    requires
        0 <= start,
        0 <= factor <= scale,
        0 < scale,
        n <= m,
    ensures
        exp_decay(start, factor, scale, m) matches Some(pm) ==> (
            exp_decay(start, factor, scale, n) matches Some(pn) && pm <= pn),
    decreases m - n,
{
    if n < m {
        lemma_exp_decay_non_increasing(start, factor, scale, n, (m - 1) as nat);
        lemma_exp_decay_nonneg(start, factor, scale, (m - 1) as nat);
        if let Some(p) = exp_decay(start, factor, scale, (m - 1) as nat) {
            if p * factor <= u128::MAX {
                assert((p * factor) / scale <= p) by (nonlinear_arith)
                    requires 0 <= p, 0 <= factor <= scale, scale > 0;
            }
        }
    }
}

proof fn lemma_exp_decay_nonneg(start: int, factor: int, scale: int, n: nat)
    requires
        0 <= start,
        0 <= factor,
        0 < scale,
    ensures
        exp_decay(start, factor, scale, n) matches Some(p) ==> 0 <= p,
    decreases n,
{
    if n > 0 {
        lemma_exp_decay_nonneg(start, factor, scale, (n - 1) as nat);
        if let Some(p) = exp_decay(start, factor, scale, (n - 1) as nat) {
            assert(0 <= (p * factor) / scale) by (nonlinear_arith)
                requires 0 <= p, 0 <= factor, 0 < scale;
        }
    }
}

proof fn lemma_sat_sub_antitone(s: int, a: int, b: int)
    requires
        0 <= s,
        0 <= a <= b,
    ensures
        0 <= sat_sub(s, b) <= sat_sub(s, a) <= s,
{
}

/// For every curve, a later time never yields a higher price: whenever the
/// price at `t2 >= t1` is defined, so is the price at `t1`, and it is no lower.
/// (For an exponential curve this needs `factor <= scale`.)
pub proof fn lemma_curve_price_non_increasing(start_price: u128, t1: u64, t2: u64, curve: DecayCurve)
    requires
        t1 <= t2,
        curve matches DecayCurve::Exponential { factor, scale } ==> factor <= scale,
    ensures
        spec_curve_price(start_price, t2, curve) matches Ok(p2) ==> (
            spec_curve_price(start_price, t1, curve) matches Ok(p1) && p2 <= p1),
{
    match curve {
        DecayCurve::Linear { rate } => {
            assert(0 <= rate * t1 <= rate * t2) by (nonlinear_arith)
                requires t1 <= t2, 0 <= rate, 0 <= t1;
            lemma_sat_sub_antitone(start_price as int, rate * t1, rate * t2);
        },
        DecayCurve::Stepped { step_size, interval } => {
            if interval > 0 {
                assert(t1 / interval <= t2 / interval) by (nonlinear_arith)
                    requires t1 <= t2, interval > 0;
                assert(0 <= step_size * (t1 / interval) <= step_size * (t2 / interval)) by (nonlinear_arith)
                    requires t1 / interval <= t2 / interval, 0 <= step_size, 0 <= t1 / interval;
                lemma_sat_sub_antitone(start_price as int, step_size * (t1 / interval), step_size * (t2 / interval));
            }
        },
        DecayCurve::Exponential { factor, scale } => {
            if scale > 0 {
                lemma_exp_decay_non_increasing(start_price as int, factor as int, scale as int, t1 as nat, t2 as nat);
                lemma_exp_decay_in_range(start_price as int, factor as int, scale as int, t1 as nat);
                lemma_exp_decay_in_range(start_price as int, factor as int, scale as int, t2 as nat);
            }
        },
    }
}

} // verus!
