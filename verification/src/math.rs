//! Integer helpers shared by the auction and credit modules.

use vstd::prelude::*;

verus! {

/// `a - b` clamped into the `i128` range.
pub open spec fn spec_saturating_sub_i128(a: int, b: int) -> int {
    if a - b > i128::MAX { i128::MAX as int } else if a - b < i128::MIN { i128::MIN as int } else { a - b }
}

/// `a - b` clamped into the `i128` range, as `i128::saturating_sub` computes it.
pub fn saturating_sub_i128(a: i128, b: i128) -> (r: i128)
    ensures
        r == spec_saturating_sub_i128(a as int, b as int),
{
    match a.checked_sub(b) {
        Some(v) => v,
        None => if b > 0 { i128::MIN } else { i128::MAX },
    }
}

/// Rounding direction of [`mul_div`].
#[derive(Clone, Copy, Debug, PartialEq, Eq, Structural)]
pub enum Rounding {
    Floor,
    Ceil,
}

/// `a * numerator / denominator` rounded as asked.
pub open spec fn spec_mul_div(a: int, numerator: int, denominator: int, rounding: Rounding) -> int {
    let product = a * numerator;
    match rounding {
        Rounding::Floor => product / denominator,
        Rounding::Ceil => if product % denominator != 0 { product / denominator + 1 } else { product / denominator },
    }
}

/// `a * numerator / denominator` with the product formed in `u128`, rounded
/// down (`Floor`) or up (`Ceil`). The product must fit in `u128` and the
/// denominator must be non-zero.
pub fn mul_div(a: u128, numerator: u128, denominator: u128, rounding: Rounding) -> (r: u128)
    requires
        denominator != 0,
        a * numerator <= u128::MAX,
    ensures
        r == spec_mul_div(a as int, numerator as int, denominator as int, rounding),
{
    proof {
        assert(0 <= a * numerator) by (nonlinear_arith)
            requires 0 <= a, 0 <= numerator;
    }
    let product = a * numerator;
    let quotient = product / denominator;
    match rounding {
        Rounding::Floor => quotient,
        Rounding::Ceil => {
            if product % denominator != 0 {
                proof {
                    assert(quotient < u128::MAX) by (nonlinear_arith)
                        requires
                            quotient == product / denominator,
                            product % denominator != 0,
                            product <= u128::MAX,
                            denominator > 0;
                }
                quotient + 1
            } else {
                quotient
            }
        },
    }
}

/// The floor of `|price - reference| * 10_000 / reference`: how far `price`
/// strays from `reference`, in basis points of `reference`.
pub open spec fn spec_deviation_bps(price: int, reference: int) -> int {
    let diff = if price >= reference { price - reference } else { reference - price };
    diff * 10_000 / reference
}

/// Whether the deviation of `price` from `reference` can be computed in
/// `i128`: the reference is positive and the scaled difference fits.
pub open spec fn deviation_computable(price: int, reference: int) -> bool {
    let diff = if price >= reference { price - reference } else { reference - price };
    reference > 0 && diff <= i128::MAX && diff * 10_000 <= i128::MAX
}

/// Deviation of `price` from `reference` in basis points of `reference`, or
/// `None` when it cannot be computed in `i128`.
pub fn compute_deviation_bps(price: i128, reference: i128) -> (r: Option<i128>)
    ensures
        r == (if deviation_computable(price as int, reference as int) {
            Some(spec_deviation_bps(price as int, reference as int) as i128)
        } else {
            None
        }),
{
    if reference <= 0 {
        return None;
    }
    let diff = if price >= reference {
        match price.checked_sub(reference) { Some(d) => d, None => return None }
    } else {
        match reference.checked_sub(price) { Some(d) => d, None => return None }
    };
    let scaled = match diff.checked_mul(10_000) {
        Some(s) => s,
        None => return None,
    };
    proof {
        assert(0 <= scaled / reference <= scaled) by (nonlinear_arith)
            requires 0 <= scaled, reference > 0;
    }
    Some(scaled / reference)
}

} // verus!
