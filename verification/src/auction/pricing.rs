//! Bid increments and Dutch auction pricing.

use vstd::prelude::*;
use crate::auction::types::DutchAuctionDecay;

verus! {

/// Integer division rounding toward zero, as Rust's `/` on signed integers.
pub open spec fn trunc_div(x: int, d: int) -> int {
    if x >= 0 { x / d } else { -((-x) / d) }
}

/// The remainder that goes with [`trunc_div`], as Rust's `%` on signed integers.
pub open spec fn trunc_rem(x: int, d: int) -> int {
    x - trunc_div(x, d) * d
}

/// The increment a new English bid must add over `highest_bid`: the
/// basis-point share `highest_bid * bps / 10_000`, rounded up for a
/// non-negative product, and at least 1.
pub open spec fn spec_bid_increment(highest_bid: int, min_increment_bps: int) -> int {
    let product = highest_bid * min_increment_bps;
    let bps_increment = trunc_div(product, 10_000) + if trunc_rem(product, 10_000) != 0 { 1int } else { 0int };
    if bps_increment >= 1 { bps_increment } else { 1 }
}

/// Smallest bid strictly above `highest_bid` that honours the increment.
pub open spec fn spec_min_next_bid(highest_bid: int, min_increment_bps: int) -> int {
    highest_bid + spec_bid_increment(highest_bid, min_increment_bps)
}

/// Lowest acceptable next bid above `highest_bid` for an increment of
/// `min_increment_bps` basis points (rounded up, at least 1).
pub fn min_next_bid(highest_bid: i128, min_increment_bps: u32) -> (r: i128)
    requires
        i128::MIN <= highest_bid * min_increment_bps <= i128::MAX,
        spec_min_next_bid(highest_bid as int, min_increment_bps as int) <= i128::MAX,
    ensures
        r == spec_min_next_bid(highest_bid as int, min_increment_bps as int),
        r > highest_bid,
{
    let bps = min_increment_bps as i128;
    let product = highest_bid * bps;
    let quotient = product / 10_000;
    let remainder = product % 10_000;
    assert(quotient == trunc_div(product as int, 10_000) && remainder == trunc_rem(product as int, 10_000)) by {
        lemma_trunc_div_rem(product as int, quotient as int, remainder as int);
    }
    let bps_increment = quotient + if remainder != 0 { 1 } else { 0 };
    let increment = if bps_increment >= 1 { bps_increment } else { 1 };
    highest_bid + increment
}

proof fn lemma_trunc_div_rem(x: int, q: int, r: int)
    requires
        q * 10_000 + r == x,
        x >= 0 ==> 0 <= r < 10_000,
        x < 0 ==> -10_000 < r <= 0,
    ensures
        q == trunc_div(x, 10_000),
        r == trunc_rem(x, 10_000),
{
    if x >= 0 {
        assert(q == x / 10_000) by (nonlinear_arith)
            requires q * 10_000 + r == x, 0 <= r < 10_000;
    } else {
        assert(-q == (-x) / 10_000) by (nonlinear_arith)
            requires (-q) * 10_000 + (-r) == -x, 0 <= -r < 10_000;
    }
}

/// The multiplicative decay factor after `t` steps of 1% each, in basis
/// points of the initial value (10 000 = no decay).
pub open spec fn exp_factor(t: nat) -> int
    decreases t,
{
    if t == 0 { 10_000 } else { exp_factor((t - 1) as nat) * 9_900 / 10_000 }
}

/// Number of exponential decay steps applied after `elapsed` time units (at most 100).
pub open spec fn exp_steps(elapsed: int) -> nat {
    if elapsed < 100 { elapsed as nat } else { 100 }
}

/// The part of `price_drop` already shed after `elapsed` of `duration`.
pub open spec fn dutch_drop(price_drop: int, elapsed: int, duration: int, decay: DutchAuctionDecay, step_count: Option<u32>) -> int {
    match decay {
        DutchAuctionDecay::Unset | DutchAuctionDecay::Linear => price_drop * elapsed / duration,
        DutchAuctionDecay::Stepped => {
            let steps = step_count->0 as int;
            price_drop * ((elapsed * steps) / duration) / steps
        },
        DutchAuctionDecay::Exponential => price_drop * (10_000 - exp_factor(exp_steps(elapsed))) / 10_000,
    }
}

/// The Dutch auction price after `elapsed_time` of an auction lasting `duration`.
pub open spec fn spec_dutch_price(
    start_price: int,
    floor_price: int,
    elapsed_time: int,
    duration: int,
    decay: DutchAuctionDecay,
    step_count: Option<u32>,
) -> int {
    if duration == 0 || elapsed_time >= duration {
        floor_price
    } else {
        let current = start_price - dutch_drop(start_price - floor_price, elapsed_time, duration, decay, step_count);
        if current >= floor_price { current } else { floor_price }
    }
}

/// The inputs on which the Dutch price is computed without arithmetic
/// overflow: the start price is at least the floor, a stepped auction has a
/// positive step count, and no intermediate product leaves its integer type.
pub open spec fn dutch_price_computable(
    start_price: int,
    floor_price: int,
    elapsed_time: int,
    duration: int,
    decay: DutchAuctionDecay,
    step_count: Option<u32>,
) -> bool {
    &&& floor_price <= start_price
    &&& (duration == 0 || elapsed_time >= duration || {
        let price_drop = start_price - floor_price;
        &&& price_drop <= i128::MAX
        &&& match decay {
            DutchAuctionDecay::Unset | DutchAuctionDecay::Linear => price_drop * elapsed_time <= i128::MAX,
            DutchAuctionDecay::Stepped => {
                &&& step_count matches Some(s) && s > 0
                &&& elapsed_time * (step_count->0 as int) <= u64::MAX
                &&& price_drop * ((elapsed_time * (step_count->0 as int)) / duration) <= i128::MAX
            },
            DutchAuctionDecay::Exponential =>
                price_drop * (10_000 - exp_factor(exp_steps(elapsed_time))) <= i128::MAX,
        }
    })
}

/// The decay factor stays within `[0, 10_000]` and shrinks with every step.
pub proof fn lemma_exp_factor_bounds(t: nat)
    ensures
        0 <= exp_factor(t) <= 10_000,
        t > 0 ==> exp_factor(t) <= exp_factor((t - 1) as nat),
    decreases t,
{
    if t > 0 {
        lemma_exp_factor_bounds((t - 1) as nat);
        let f = exp_factor((t - 1) as nat);
        assert(0 <= f * 9_900 / 10_000 <= f) by (nonlinear_arith)
            requires 0 <= f <= 10_000;
    }
}

/// Each step of exponential decay takes off 1%, rounded down: the factor
/// after `t` steps is the factor after `t - 1` times 9 900 / 10 000, so it
/// strictly drops while it is positive.
pub proof fn lemma_exp_factor_step(t: nat)
    requires
        t >= 1,
    ensures
        exp_factor(0) == 10_000,
        exp_factor(t) == exp_factor((t - 1) as nat) * 9_900 / 10_000,
        exp_factor((t - 1) as nat) > 0 ==> exp_factor(t) < exp_factor((t - 1) as nat),
{
    let f = exp_factor((t - 1) as nat);
    if f > 0 {
        assert(f * 9_900 / 10_000 < f) by (nonlinear_arith)
            requires f > 0;
    }
}

/// The linear Dutch price drops in proportion to the elapsed time, rounded
/// so that the price stays on the seller's side: with `p` the price, the
/// amount shed `start - p` satisfies
/// `(start - p) * duration <= (start - floor) * elapsed < (start - p + 1) * duration`.
/// It is the start price at the start and the floor once the duration has
/// passed (or when there is no duration).
pub proof fn lemma_linear_price_characterized(
    start_price: int,
    floor_price: int,
    elapsed_time: int,
    duration: int,
    step_count: Option<u32>,
)
    requires
        floor_price <= start_price,
        0 <= elapsed_time,
        0 <= duration,
    ensures
        ({
            let p = spec_dutch_price(start_price, floor_price, elapsed_time, duration, DutchAuctionDecay::Linear, step_count);
            &&& (duration == 0 || elapsed_time >= duration) ==> p == floor_price
            &&& elapsed_time < duration ==> {
                &&& (start_price - p) * duration <= (start_price - floor_price) * elapsed_time
                &&& (start_price - floor_price) * elapsed_time < (start_price - p + 1) * duration
                &&& floor_price <= p <= start_price
            }
            &&& (elapsed_time == 0 && duration > 0) ==> p == start_price
        }),
{
    if 0 <= elapsed_time < duration {
        let d = start_price - floor_price;
        let q = d * elapsed_time / duration;
        assert(q * duration <= d * elapsed_time < (q + 1) * duration && 0 <= q <= d) by (nonlinear_arith)
            requires d >= 0, 0 <= elapsed_time < duration, q == d * elapsed_time / duration;
        if elapsed_time == 0 {
            assert(d * elapsed_time == 0) by (nonlinear_arith) requires elapsed_time == 0;
        }
    }
}

/// Before the auction ends and within the first 100 time units, the
/// exponential Dutch price applies one 1% decay step per elapsed time unit:
/// `max(floor, start - (start - floor) * (10 000 - factor(elapsed)) / 10 000)`.
pub proof fn lemma_exponential_price_uses_elapsed_steps(
    start_price: int,
    floor_price: int,
    elapsed_time: int,
    duration: int,
    step_count: Option<u32>,
)
    requires
        0 <= elapsed_time < duration,
        elapsed_time <= 100,
    ensures
        ({
            let drop = (start_price - floor_price) * (10_000 - exp_factor(elapsed_time as nat)) / 10_000;
            let current = start_price - drop;
            spec_dutch_price(start_price, floor_price, elapsed_time, duration, DutchAuctionDecay::Exponential, step_count)
                == if current >= floor_price { current } else { floor_price }
        }),
{
}

/// The decay factor is non-increasing in the number of steps.
pub proof fn lemma_exp_factor_antitone(t1: nat, t2: nat)
    requires
        t1 <= t2,
    ensures
        exp_factor(t2) <= exp_factor(t1),
    decreases t2 - t1,
{
    if t1 < t2 {
        lemma_exp_factor_antitone(t1, (t2 - 1) as nat);
        lemma_exp_factor_bounds(t2);
    }
}

proof fn lemma_mul_div_mono(a: int, b1: int, b2: int, d: int)
    requires
        0 <= a,
        0 <= b1 <= b2,
        d > 0,
    ensures
        0 <= a * b1 / d <= a * b2 / d,
{
    assert(0 <= a * b1 <= a * b2) by (nonlinear_arith)
        requires 0 <= a, 0 <= b1 <= b2;
    assert(0 <= a * b1 / d <= a * b2 / d) by (nonlinear_arith)
        requires 0 <= a * b1 <= a * b2, d > 0;
}

proof fn lemma_mul_div_at_most(a: int, b: int, d: int)
    requires
        0 <= a,
        0 <= b <= d,
        d > 0,
    ensures
        0 <= a * b / d <= a,
{
    lemma_mul_div_mono(a, b, d, d);
    assert(a * d / d == a) by (nonlinear_arith)
        requires d > 0;
}

/// Before the auction ends, the amount already shed lies within `[0, price_drop]`.
proof fn lemma_dutch_drop_bounds(price_drop: int, elapsed: int, duration: int, decay: DutchAuctionDecay, step_count: Option<u32>)
    requires
        0 <= price_drop,
        0 <= elapsed < duration,
        decay == DutchAuctionDecay::Stepped ==> (step_count matches Some(s) && s > 0),
    ensures
        0 <= dutch_drop(price_drop, elapsed, duration, decay, step_count) <= price_drop,
{
    match decay {
        DutchAuctionDecay::Unset | DutchAuctionDecay::Linear => {
            lemma_mul_div_at_most(price_drop, elapsed, duration);
        },
        DutchAuctionDecay::Stepped => {
            let s = step_count->0 as int;
            assert(0 <= (elapsed * s) / duration <= s) by (nonlinear_arith)
                requires 0 <= elapsed < duration, s > 0;
            lemma_mul_div_at_most(price_drop, (elapsed * s) / duration, s);
        },
        DutchAuctionDecay::Exponential => {
            lemma_exp_factor_bounds(exp_steps(elapsed));
            lemma_mul_div_at_most(price_drop, 10_000 - exp_factor(exp_steps(elapsed)), 10_000);
        },
    }
}

/// The Dutch price always lies between the floor and the start price, and
/// equals the floor once the auction's duration has elapsed (or when the
/// duration is zero).
pub proof fn lemma_dutch_price_bounds(
    start_price: int,
    floor_price: int,
    elapsed_time: int,
    duration: int,
    decay: DutchAuctionDecay,
    step_count: Option<u32>,
)
    requires
        0 <= elapsed_time,
        0 <= duration,
        dutch_price_computable(start_price, floor_price, elapsed_time, duration, decay, step_count),
    ensures
        floor_price <= spec_dutch_price(start_price, floor_price, elapsed_time, duration, decay, step_count) <= start_price,
        (duration == 0 || elapsed_time >= duration) ==>
            spec_dutch_price(start_price, floor_price, elapsed_time, duration, decay, step_count) == floor_price,
{
    if !(duration == 0 || elapsed_time >= duration) {
        lemma_dutch_drop_bounds(start_price - floor_price, elapsed_time, duration, decay, step_count);
    }
}

/// The Dutch price never rises as time passes: for `t1 <= t2`,
/// `price(t1) >= price(t2)`.
pub proof fn lemma_dutch_price_non_increasing(
    start_price: int,
    floor_price: int,
    t1: int,
    t2: int,
    duration: int,
    decay: DutchAuctionDecay,
    step_count: Option<u32>,
)
    requires
        0 <= t1 <= t2,
        0 <= duration,
        dutch_price_computable(start_price, floor_price, t1, duration, decay, step_count),
        dutch_price_computable(start_price, floor_price, t2, duration, decay, step_count),
    ensures
        spec_dutch_price(start_price, floor_price, t2, duration, decay, step_count)
            <= spec_dutch_price(start_price, floor_price, t1, duration, decay, step_count),
{
    lemma_dutch_price_bounds(start_price, floor_price, t1, duration, decay, step_count);
    lemma_dutch_price_bounds(start_price, floor_price, t2, duration, decay, step_count);
    if !(duration == 0 || t2 >= duration) {
        let price_drop = start_price - floor_price;
        match decay {
            DutchAuctionDecay::Unset | DutchAuctionDecay::Linear => {
                lemma_mul_div_mono(price_drop, t1, t2, duration);
            },
            DutchAuctionDecay::Stepped => {
                let s = step_count->0 as int;
                assert(0 <= (t1 * s) / duration <= (t2 * s) / duration) by (nonlinear_arith)
                    requires 0 <= t1 <= t2, s > 0, duration > 0;
                lemma_mul_div_mono(price_drop, (t1 * s) / duration, (t2 * s) / duration, s);
            },
            DutchAuctionDecay::Exponential => {
                lemma_exp_factor_antitone(exp_steps(t1), exp_steps(t2));
                lemma_exp_factor_bounds(exp_steps(t1));
                lemma_exp_factor_bounds(exp_steps(t2));
                lemma_mul_div_mono(
                    price_drop,
                    10_000 - exp_factor(exp_steps(t1)),
                    10_000 - exp_factor(exp_steps(t2)),
                    10_000,
                );
            },
        }
    }
}

/// The exponential decay factor reached after `elapsed` time units (at most 100 steps).
pub fn exp_factor_after(elapsed: u64) -> (r: i128)
    ensures
        r == exp_factor(exp_steps(elapsed as int)),
        elapsed <= 100 ==> r == exp_factor(elapsed as nat),
        elapsed >= 100 ==> r == exp_factor(100),
        0 <= r <= 10_000,
{
    let t: u64 = if elapsed < 100 { elapsed } else { 100 };
    let mut factor: i128 = 10_000;
    let mut i: u64 = 0;
    while i < t
        invariant
            0 <= i <= t <= 100,
            t == exp_steps(elapsed as int),
            factor == exp_factor(i as nat),
        decreases t - i,
    {
        proof {
            lemma_exp_factor_bounds(i as nat);
        }
        factor = factor * 9_900 / 10_000;
        i = i + 1;
    }
    proof {
        lemma_exp_factor_bounds(t as nat);
    }
    factor
}

/// The Dutch price when it can be computed without overflow, else `None`.
pub fn checked_dutch_price(
    start_price: i128,
    floor_price: i128,
    elapsed_time: u64,
    duration: u64,
    decay: &DutchAuctionDecay,
    step_count: Option<u32>,
) -> (r: Option<i128>)
    ensures
        r == (if dutch_price_computable(start_price as int, floor_price as int, elapsed_time as int, duration as int, *decay, step_count) {
            Some(spec_dutch_price(start_price as int, floor_price as int, elapsed_time as int, duration as int, *decay, step_count) as i128)
        } else {
            None
        }),
{
    if floor_price > start_price {
        return None;
    }
    if duration == 0 || elapsed_time >= duration {
        return Some(compute_dutch_price(start_price, floor_price, elapsed_time, duration, decay, step_count));
    }
    let price_drop = match start_price.checked_sub(floor_price) {
        Some(d) => d,
        None => return None,
    };
    match decay {
        DutchAuctionDecay::Unset | DutchAuctionDecay::Linear => {
            if price_drop.checked_mul(elapsed_time as i128).is_none() {
                return None;
            }
        },
        DutchAuctionDecay::Stepped => {
            let steps: u32 = match step_count {
                Some(s) => s,
                None => return None,
            };
            if steps == 0 {
                return None;
            }
            let scaled = match elapsed_time.checked_mul(steps as u64) {
                Some(x) => x,
                None => return None,
            };
            if price_drop.checked_mul((scaled / duration) as i128).is_none() {
                return None;
            }
        },
        DutchAuctionDecay::Exponential => {
            let factor = exp_factor_after(elapsed_time);
            if price_drop.checked_mul(10_000 - factor).is_none() {
                return None;
            }
        },
    }
    proof {
        lemma_dutch_price_bounds(start_price as int, floor_price as int, elapsed_time as int, duration as int, *decay, step_count);
    }
    Some(compute_dutch_price(start_price, floor_price, elapsed_time, duration, decay, step_count))
}

/// Why a Dutch price cannot be computed.
#[derive(Clone, Copy, Debug, PartialEq, Eq, Structural)]
pub enum DutchPriceFailure {
    /// The start price is below the floor (or their difference overflows).
    StartBelowFloor,
    /// A stepped auction has a zero step count.
    StepCountZero,
    /// A stepped auction has no step count.
    StepCountMissing,
    /// `elapsed * steps` overflows.
    StepOverflow,
    /// The linear or stepped drop overflows.
    DropOverflow,
    /// The exponential drop overflows.
    ExponentialOverflow,
}

/// The message the auction aborts with for `failure`.
pub open spec fn dutch_failure_message(failure: DutchPriceFailure) -> Seq<char> {
    match failure {
        DutchPriceFailure::StartBelowFloor => "start_price must be >= floor_price"@,
        DutchPriceFailure::StepCountZero => "dutch_step_count must be > 0 for stepped Dutch auctions"@,
        DutchPriceFailure::StepCountMissing => "dutch_step_count required for stepped Dutch auctions"@,
        DutchPriceFailure::StepOverflow => "overflow in stepped Dutch step calculation"@,
        DutchPriceFailure::DropOverflow => "overflow in Dutch price calculation"@,
        DutchPriceFailure::ExponentialOverflow => "overflow in exponential drop calculation"@,
    }
}

impl DutchPriceFailure {
    /// The message the auction aborts with.
    pub fn message(&self) -> (r: &'static str)
        ensures
            r@ == dutch_failure_message(*self),
    {
        match self {
            DutchPriceFailure::StartBelowFloor => "start_price must be >= floor_price",
            DutchPriceFailure::StepCountZero => "dutch_step_count must be > 0 for stepped Dutch auctions",
            DutchPriceFailure::StepCountMissing => "dutch_step_count required for stepped Dutch auctions",
            DutchPriceFailure::StepOverflow => "overflow in stepped Dutch step calculation",
            DutchPriceFailure::DropOverflow => "overflow in Dutch price calculation",
            DutchPriceFailure::ExponentialOverflow => "overflow in exponential drop calculation",
        }
    }
}

/// The first step at which the Dutch price computation fails, if any.
pub open spec fn spec_dutch_price_failure(
    start_price: int,
    floor_price: int,
    elapsed_time: int,
    duration: int,
    decay: DutchAuctionDecay,
    step_count: Option<u32>,
) -> Option<DutchPriceFailure> {
    if floor_price > start_price {
        Some(DutchPriceFailure::StartBelowFloor)
    } else if duration == 0 || elapsed_time >= duration {
        None
    } else {
        let price_drop = start_price - floor_price;
        if price_drop > i128::MAX {
            Some(DutchPriceFailure::StartBelowFloor)
        } else {
            match decay {
                DutchAuctionDecay::Unset | DutchAuctionDecay::Linear =>
                    if price_drop * elapsed_time > i128::MAX { Some(DutchPriceFailure::DropOverflow) } else { None },
                DutchAuctionDecay::Stepped => match step_count {
                    None => Some(DutchPriceFailure::StepCountMissing),
                    Some(s) => if s == 0 {
                        Some(DutchPriceFailure::StepCountZero)
                    } else if elapsed_time * s > u64::MAX {
                        Some(DutchPriceFailure::StepOverflow)
                    } else if price_drop * ((elapsed_time * s) / duration) > i128::MAX {
                        Some(DutchPriceFailure::DropOverflow)
                    } else {
                        None
                    },
                },
                DutchAuctionDecay::Exponential =>
                    if price_drop * (10_000 - exp_factor(exp_steps(elapsed_time))) > i128::MAX {
                        Some(DutchPriceFailure::ExponentialOverflow)
                    } else {
                        None
                    },
            }
        }
    }
}

/// Why the Dutch price cannot be computed, or `None` when it can.
pub fn dutch_price_failure(
    start_price: i128,
    floor_price: i128,
    elapsed_time: u64,
    duration: u64,
    decay: &DutchAuctionDecay,
    step_count: Option<u32>,
) -> (r: Option<DutchPriceFailure>)
    ensures
        r == spec_dutch_price_failure(start_price as int, floor_price as int, elapsed_time as int, duration as int, *decay, step_count),
        r is None <==> dutch_price_computable(start_price as int, floor_price as int, elapsed_time as int, duration as int, *decay, step_count),
{
    if floor_price > start_price {
        return Some(DutchPriceFailure::StartBelowFloor);
    }
    if duration == 0 || elapsed_time >= duration {
        return None;
    }
    let price_drop = match start_price.checked_sub(floor_price) {
        Some(d) => d,
        None => return Some(DutchPriceFailure::StartBelowFloor),
    };
    match decay {
        DutchAuctionDecay::Unset | DutchAuctionDecay::Linear => {
            if price_drop.checked_mul(elapsed_time as i128).is_none() {
                return Some(DutchPriceFailure::DropOverflow);
            }
        },
        DutchAuctionDecay::Stepped => {
            let steps: u32 = match step_count {
                Some(s) => s,
                None => return Some(DutchPriceFailure::StepCountMissing),
            };
            if steps == 0 {
                return Some(DutchPriceFailure::StepCountZero);
            }
            let scaled = match elapsed_time.checked_mul(steps as u64) {
                Some(x) => x,
                None => return Some(DutchPriceFailure::StepOverflow),
            };
            if price_drop.checked_mul((scaled / duration) as i128).is_none() {
                return Some(DutchPriceFailure::DropOverflow);
            }
        },
        DutchAuctionDecay::Exponential => {
            let factor = exp_factor_after(elapsed_time);
            if price_drop.checked_mul(10_000 - factor).is_none() {
                return Some(DutchPriceFailure::ExponentialOverflow);
            }
        },
    }
    None
}

/// Computes the current Dutch auction price based on elapsed time.
///
/// - `Unset` / `Linear`: `p(t) = start - (start - floor) * t / T`.
/// - `Stepped`: equal time buckets, discrete downward steps.
/// - `Exponential`: 1% multiplicative decay per time unit, for at most 100 units.
///
/// A zero `duration`, or an elapsed time at or past it, yields the floor price.
pub fn compute_dutch_price(
    start_price: i128,
    floor_price: i128,
    elapsed_time: u64,
    duration: u64,
    decay: &DutchAuctionDecay,
    step_count: Option<u32>,
) -> (r: i128)
    requires
        dutch_price_computable(start_price as int, floor_price as int, elapsed_time as int, duration as int, *decay, step_count),
    ensures
        r == spec_dutch_price(start_price as int, floor_price as int, elapsed_time as int, duration as int, *decay, step_count),
{
    if duration == 0 {
        return floor_price;
    }
    if elapsed_time >= duration {
        return floor_price;
    }
    proof {
        lemma_dutch_drop_bounds(
            start_price - floor_price, elapsed_time as int, duration as int, *decay, step_count);
    }
    let price_drop = start_price - floor_price;
    let elapsed_i128 = elapsed_time as i128;
    let duration_i128 = duration as i128;

    let drop_so_far: i128 = match decay {
        DutchAuctionDecay::Unset | DutchAuctionDecay::Linear => {
            assert(0 <= price_drop * elapsed_i128) by (nonlinear_arith)
                requires 0 <= price_drop, 0 <= elapsed_i128;
            (price_drop * elapsed_i128) / duration_i128
        },
        DutchAuctionDecay::Stepped => {
            let steps: i128 = match step_count {
                Some(s) => s as i128,
                None => 0,
            };
            let elapsed_steps = ((elapsed_time * (steps as u64)) / duration) as i128;
            assert(0 <= price_drop * elapsed_steps) by (nonlinear_arith)
                requires 0 <= price_drop, 0 <= elapsed_steps;
            (price_drop * elapsed_steps) / steps
        },
        DutchAuctionDecay::Exponential => {
            let factor = exp_factor_after(elapsed_time);
            proof {
                lemma_exp_factor_bounds(exp_steps(elapsed_time as int));
            }
            assert(0 <= price_drop * (10_000 - factor)) by (nonlinear_arith)
                requires 0 <= price_drop, 0 <= 10_000 - factor;
            (price_drop * (10_000 - factor)) / 10_000
        },
    };
    let current_price = start_price - drop_so_far;
    if current_price >= floor_price { current_price } else { floor_price }
}

} // verus!
