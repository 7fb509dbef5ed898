//! The auction state machine: `Open -> Closed -> Claimed`.
//!
//! Each entrypoint takes the stored state of one auction (`None` when no
//! auction is stored under the id) together with what the caller observed of
//! the environment, and returns the state to store or the error to revert with.

use vstd::prelude::*;
use crate::account::AccountId;
use crate::math::saturating_sub_i128;
use crate::auction::pricing::{
    checked_dutch_price, compute_dutch_price, dutch_price_computable, dutch_price_failure, spec_dutch_price,
    spec_dutch_price_failure, DutchPriceFailure,
};
use crate::auction::types::{
    AuctionConfig, AuctionError, AuctionMode, AuctionSetupError, AuctionState, AuctionStatus, DutchAuctionDecay,
};

verus! {

/// The auction contract.
pub struct Auction;

/// What a successful bid produces.
pub struct BidOutcome {
    /// The auction state to store.
    pub state: AuctionState,
    /// The outbid English bidder and the amount to refund to them, when a
    /// bid token is configured.
    pub refund: Option<(AccountId, i128)>,
}

/// What a successful liquidation settlement reports back to the credit contract.
pub struct SettlementReport {
    /// The winning bidder, or the borrower when nobody bid.
    pub winner: AccountId,
    /// The proceeds: the winning bid.
    pub recovered_amount: i128,
}

/// The first parameter check that `init_auction` fails, if any.
pub open spec fn spec_setup_error(
    mode: AuctionMode,
    start_time: u64,
    end_time: u64,
    min_bid: i128,
    min_increment_bps: u32,
    dutch_start_price: Option<i128>,
    dutch_floor_price: Option<i128>,
    dutch_decay: DutchAuctionDecay,
    dutch_step_count: Option<u32>,
) -> Option<AuctionSetupError> {
    if start_time >= end_time {
        Some(AuctionSetupError::InvalidTimes)
    } else if min_increment_bps > 10_000 {
        Some(AuctionSetupError::IncrementTooHigh)
    } else if mode == AuctionMode::Dutch {
        if dutch_start_price is None {
            Some(AuctionSetupError::MissingDutchStartPrice)
        } else if dutch_floor_price is None {
            Some(AuctionSetupError::MissingDutchFloorPrice)
        } else if dutch_start_price->0 < dutch_floor_price->0 {
            Some(AuctionSetupError::StartBelowFloor)
        } else if dutch_start_price->0 < min_bid {
            Some(AuctionSetupError::StartBelowMinBid)
        } else if dutch_decay == DutchAuctionDecay::Stepped && dutch_step_count == Some(0u32) {
            Some(AuctionSetupError::ZeroStepCount)
        } else if dutch_decay == DutchAuctionDecay::Stepped && dutch_step_count is None {
            Some(AuctionSetupError::MissingStepCount)
        } else {
            None
        }
    } else {
        None
    }
}

/// Time elapsed since the auction started (zero before the start).
pub open spec fn bid_elapsed(config: AuctionConfig, now: u64) -> int {
    if now >= config.start_time { now - config.start_time } else { 0 }
}

/// The auction's duration (one time unit when the times are inverted).
pub open spec fn bid_duration(config: AuctionConfig) -> int {
    if config.end_time >= config.start_time { config.end_time - config.start_time } else { 1 }
}

/// Start price of the Dutch descent (the minimum bid when none was set).
pub open spec fn bid_start_price(config: AuctionConfig) -> int {
    match config.dutch_start_price { Some(p) => p as int, None => config.min_bid as int }
}

/// Floor price of the Dutch descent (the minimum bid when none was set).
pub open spec fn bid_floor_price(config: AuctionConfig) -> int {
    match config.dutch_floor_price { Some(p) => p as int, None => config.min_bid as int }
}

/// The current Dutch price of an auction at time `now`.
pub open spec fn current_dutch_price(config: AuctionConfig, now: u64) -> int {
    spec_dutch_price(
        bid_start_price(config),
        bid_floor_price(config),
        bid_elapsed(config, now),
        bid_duration(config),
        config.dutch_decay,
        config.dutch_step_count,
    )
}

/// Whether the current Dutch price of an auction can be computed at `now`.
pub open spec fn dutch_price_computable_at(config: AuctionConfig, now: u64) -> bool {
    dutch_price_computable(
        bid_start_price(config),
        bid_floor_price(config),
        bid_elapsed(config, now),
        bid_duration(config),
        config.dutch_decay,
        config.dutch_step_count,
    )
}

/// The grace window, when set, has not yet passed at `now`.
pub open spec fn in_grace_period(config: AuctionConfig, now: u64, grace_window: u64) -> bool {
    grace_window > 0 && now < sat_add_u64(config.start_time as int, grace_window as int)
}

/// `a + b` saturating at `u64::MAX`.
pub open spec fn sat_add_u64(a: int, b: int) -> int {
    if a + b > u64::MAX { u64::MAX as int } else { a + b }
}

/// The first check a bid fails before any price is computed, if any.
pub open spec fn bid_gate_error(state: Option<AuctionState>, amount: i128, now: u64, grace_window: u64) -> Option<AuctionError> {
    if amount <= 0 {
        Some(AuctionError::BidTooLow)
    } else if state is None {
        Some(AuctionError::NotFound)
    } else if state->0.status != AuctionStatus::Open {
        Some(AuctionError::AuctionNotOpen)
    } else if now >= state->0.config.end_time {
        Some(AuctionError::AuctionNotOpen)
    } else if in_grace_period(state->0.config, now, grace_window) {
        Some(AuctionError::GracePeriodActive)
    } else {
        None
    }
}

/// The lowest amount an English bid must exceed.
pub open spec fn english_floor(state: AuctionState) -> int {
    let min_floor = if state.config.min_bid > i128::MIN { state.config.min_bid - 1 } else { i128::MIN as int };
    if state.highest_bid > min_floor { state.highest_bid as int } else { min_floor }
}

/// What `place_bid` does: the state to store and the refund owed, or the error.
pub open spec fn spec_place_bid(
    state: Option<AuctionState>,
    bidder: AccountId,
    amount: i128,
    now: u64,
    grace_window: u64,
    bid_token_configured: bool,
) -> Result<(AuctionState, Option<(AccountId, i128)>), AuctionError> {
    if bid_gate_error(state, amount, now, grace_window) is Some {
        Err(bid_gate_error(state, amount, now, grace_window)->0)
    } else {
        let s = state->0;
        match s.config.mode {
            AuctionMode::English => {
                if amount <= english_floor(s) {
                    Err(AuctionError::BidTooLow)
                } else {
                    let refund = if bid_token_configured && s.highest_bidder is Some {
                        Some((s.highest_bidder->0, s.highest_bid))
                    } else {
                        None
                    };
                    Ok((AuctionState { highest_bidder: Some(bidder), highest_bid: amount, ..s }, refund))
                }
            },
            AuctionMode::Dutch => {
                if amount < current_dutch_price(s.config, now) || amount < s.config.min_bid {
                    Err(AuctionError::BidTooLow)
                } else {
                    Ok((AuctionState {
                        highest_bidder: Some(bidder),
                        highest_bid: amount,
                        status: AuctionStatus::Closed,
                        ..s
                    }, None))
                }
            },
        }
    }
}

/// A bid reaches the Dutch price computation.
pub open spec fn bid_prices_dutch(state: Option<AuctionState>, amount: i128, now: u64, grace_window: u64) -> bool {
    bid_gate_error(state, amount, now, grace_window) is None && state->0.config.mode == AuctionMode::Dutch
}

/// What `close_auction` does.
pub open spec fn spec_close_auction(state: Option<AuctionState>) -> Result<AuctionState, AuctionError> {
    match state {
        None => Err(AuctionError::NotFound),
        Some(s) => {
            if s.status == AuctionStatus::Claimed {
                Err(AuctionError::AlreadyClaimed)
            } else if s.status != AuctionStatus::Open {
                Err(AuctionError::AuctionNotOpen)
            } else {
                Ok(AuctionState { status: AuctionStatus::Closed, ..s })
            }
        },
    }
}

/// What `claim_auction` does.
pub open spec fn spec_claim_auction(state: Option<AuctionState>) -> Result<AuctionState, AuctionError> {
    match state {
        None => Err(AuctionError::NotFound),
        Some(s) => {
            if s.status != AuctionStatus::Closed {
                Err(AuctionError::AuctionNotClosed)
            } else if s.highest_bidder is None {
                Err(AuctionError::NoWinner)
            } else {
                Ok(AuctionState { status: AuctionStatus::Claimed, ..s })
            }
        },
    }
}

/// What the auction side of a default-liquidation settlement does.
pub open spec fn spec_settle_default_liquidation(
    state: Option<AuctionState>,
    factory: Option<AccountId>,
    credit_contract: AccountId,
    borrower: AccountId,
    already_settled: bool,
) -> Result<(AccountId, i128), AuctionError> {
    if factory is None {
        Err(AuctionError::NoFactoryContract)
    } else if credit_contract@ != factory->0@ {
        Err(AuctionError::Unauthorized)
    } else if state is None {
        Err(AuctionError::NotFound)
    } else if state->0.status != AuctionStatus::Closed {
        Err(AuctionError::NotClosed)
    } else if already_settled {
        Err(AuctionError::AlreadySettled)
    } else {
        let s = state->0;
        let winner = match s.highest_bidder { Some(w) => w, None => borrower };
        Ok((winner, s.highest_bid))
    }
}

impl Auction {
    /// Validate the parameters of a new auction and build its initial state:
    /// `Open`, with no bidder and a highest bid of zero.
    pub fn init_auction(
        mode: AuctionMode,
        start_time: u64,
        end_time: u64,
        min_bid: i128,
        min_increment_bps: u32,
        dutch_start_price: Option<i128>,
        dutch_floor_price: Option<i128>,
        dutch_decay: DutchAuctionDecay,
        dutch_step_count: Option<u32>,
    ) -> (r: Result<AuctionState, AuctionSetupError>)
        ensures
            match r {
                Err(e) => spec_setup_error(mode, start_time, end_time, min_bid, min_increment_bps,
                    dutch_start_price, dutch_floor_price, dutch_decay, dutch_step_count) == Some(e),
                Ok(s) => {
                    &&& spec_setup_error(mode, start_time, end_time, min_bid, min_increment_bps,
                        dutch_start_price, dutch_floor_price, dutch_decay, dutch_step_count) is None
                    &&& s.config.mode == mode
                    &&& s.config.username_hash@ == Seq::new(32, |i: int| 0u8)
                    &&& s.config.start_time == start_time
                    &&& s.config.end_time == end_time
                    &&& s.config.min_bid == min_bid
                    &&& s.config.min_increment_bps == min_increment_bps
                    &&& s.config.dutch_start_price == dutch_start_price
                    &&& s.config.dutch_floor_price == dutch_floor_price
                    &&& s.config.dutch_decay == dutch_decay
                    &&& s.config.dutch_step_count == dutch_step_count
                    &&& s.status == AuctionStatus::Open
                    &&& s.highest_bidder is None
                    &&& s.highest_bid == 0
                },
            },
    {
        if start_time >= end_time {
            return Err(AuctionSetupError::InvalidTimes);
        }
        if min_increment_bps > 10_000 {
            return Err(AuctionSetupError::IncrementTooHigh);
        }
        if mode == AuctionMode::Dutch {
            let start = match dutch_start_price {
                Some(p) => p,
                None => return Err(AuctionSetupError::MissingDutchStartPrice),
            };
            let floor = match dutch_floor_price {
                Some(p) => p,
                None => return Err(AuctionSetupError::MissingDutchFloorPrice),
            };
            if start < floor {
                return Err(AuctionSetupError::StartBelowFloor);
            }
            if start < min_bid {
                return Err(AuctionSetupError::StartBelowMinBid);
            }
            if dutch_decay == DutchAuctionDecay::Stepped {
                match dutch_step_count {
                    Some(0) => return Err(AuctionSetupError::ZeroStepCount),
                    Some(_) => {},
                    None => return Err(AuctionSetupError::MissingStepCount),
                }
            }
        }
        let username_hash = [0u8; 32];
        assert(username_hash@ =~= Seq::new(32, |i: int| 0u8));
        let config = AuctionConfig {
            mode,
            username_hash,
            start_time,
            end_time,
            min_bid,
            min_increment_bps,
            dutch_start_price,
            dutch_floor_price,
            dutch_decay,
            dutch_step_count,
        };
        Ok(AuctionState { config, status: AuctionStatus::Open, highest_bidder: None, highest_bid: 0 })
    }

    /// Whether a bid can be priced: false exactly when it would reach the
    /// Dutch price computation and that computation overflows (or the stored
    /// prices or step count are unusable), which `place_bid` does not accept.
    pub fn bid_is_priceable(state: &Option<AuctionState>, amount: i128, now: u64, grace_window: u64) -> (r: bool)
        ensures
            r == (bid_prices_dutch(*state, amount, now, grace_window) ==> dutch_price_computable_at(state->0.config, now)),
    {
        if amount <= 0 {
            return true;
        }
        let s = match state {
            Some(s) => s,
            None => return true,
        };
        if s.status != AuctionStatus::Open || now >= s.config.end_time {
            return true;
        }
        if grace_window > 0 && now < s.config.start_time.saturating_add(grace_window) {
            return true;
        }
        if s.config.mode != AuctionMode::Dutch {
            return true;
        }
        let config = &s.config;
        let elapsed_time = if now >= config.start_time { now - config.start_time } else { 0 };
        let duration = if config.end_time >= config.start_time { config.end_time - config.start_time } else { 1 };
        let start_price = match config.dutch_start_price { Some(p) => p, None => config.min_bid };
        let floor_price = match config.dutch_floor_price { Some(p) => p, None => config.min_bid };
        checked_dutch_price(start_price, floor_price, elapsed_time, duration, &config.dutch_decay, config.dutch_step_count).is_some()
    }

    /// Why a bid cannot be priced: `None` exactly when `bid_is_priceable`
    /// holds, else the step of the Dutch price computation that fails.
    pub fn bid_price_failure(state: &Option<AuctionState>, amount: i128, now: u64, grace_window: u64) -> (r: Option<DutchPriceFailure>)
        ensures
            r is None <==> (bid_prices_dutch(*state, amount, now, grace_window) ==> dutch_price_computable_at(state->0.config, now)),
            r matches Some(f) ==> Some(f) == spec_dutch_price_failure(
                bid_start_price(state->0.config),
                bid_floor_price(state->0.config),
                bid_elapsed(state->0.config, now),
                bid_duration(state->0.config),
                state->0.config.dutch_decay,
                state->0.config.dutch_step_count,
            ),
    {
        if amount <= 0 {
            return None;
        }
        let s = match state {
            Some(s) => s,
            None => return None,
        };
        if s.status != AuctionStatus::Open || now >= s.config.end_time {
            return None;
        }
        if grace_window > 0 && now < s.config.start_time.saturating_add(grace_window) {
            return None;
        }
        if s.config.mode != AuctionMode::Dutch {
            return None;
        }
        let config = &s.config;
        let elapsed_time = if now >= config.start_time { now - config.start_time } else { 0 };
        let duration = if config.end_time >= config.start_time { config.end_time - config.start_time } else { 1 };
        let start_price = match config.dutch_start_price { Some(p) => p, None => config.min_bid };
        let floor_price = match config.dutch_floor_price { Some(p) => p, None => config.min_bid };
        dutch_price_failure(start_price, floor_price, elapsed_time, duration, &config.dutch_decay, config.dutch_step_count)
    }

    /// Close an open auction.
    pub fn close_auction(state: Option<AuctionState>) -> (r: Result<AuctionState, AuctionError>)
        ensures
            r == spec_close_auction(state),
    {
        let mut s = match state {
            Some(s) => s,
            None => return Err(AuctionError::NotFound),
        };
        if s.status == AuctionStatus::Claimed {
            return Err(AuctionError::AlreadyClaimed);
        }
        if s.status != AuctionStatus::Open {
            return Err(AuctionError::AuctionNotOpen);
        }
        s.status = AuctionStatus::Closed;
        Ok(s)
    }

    /// Place a bid at time `now`.
    ///
    /// English auctions take a bid above both the highest bid and
    /// `min_bid - 1`; the previous bidder is refunded when a bid token is
    /// configured. Dutch auctions take the first bid at or above the current
    /// price (and `min_bid`) and close at once. No bid is taken before the
    /// grace window after `start_time` has passed.
    pub fn place_bid(
        state: Option<AuctionState>,
        bidder: AccountId,
        amount: i128,
        now: u64,
        grace_window: u64,
        bid_token_configured: bool,
    ) -> (r: Result<BidOutcome, AuctionError>)
        requires
            bid_prices_dutch(state, amount, now, grace_window) ==> dutch_price_computable_at(state->0.config, now),
        ensures
            match r {
                Ok(o) => spec_place_bid(state, bidder, amount, now, grace_window, bid_token_configured)
                    == Ok::<(AuctionState, Option<(AccountId, i128)>), AuctionError>((o.state, o.refund)),
                Err(e) => spec_place_bid(state, bidder, amount, now, grace_window, bid_token_configured)
                    == Err::<(AuctionState, Option<(AccountId, i128)>), AuctionError>(e),
            },
    {
        if amount <= 0 {
            return Err(AuctionError::BidTooLow);
        }
        let s = match state {
            Some(s) => s,
            None => return Err(AuctionError::NotFound),
        };
        if s.status != AuctionStatus::Open {
            return Err(AuctionError::AuctionNotOpen);
        }
        if now >= s.config.end_time {
            return Err(AuctionError::AuctionNotOpen);
        }
        if grace_window > 0 {
            let earliest_start = s.config.start_time.saturating_add(grace_window);
            if now < earliest_start {
                return Err(AuctionError::GracePeriodActive);
            }
        }
        let AuctionState { config, status, highest_bidder, highest_bid } = s;
        match config.mode {
            AuctionMode::English => {
                let min_floor = saturating_sub_i128(config.min_bid, 1);
                let required_floor = if highest_bid > min_floor { highest_bid } else { min_floor };
                if amount <= required_floor {
                    return Err(AuctionError::BidTooLow);
                }
                let refund = match highest_bidder {
                    Some(prev) => if bid_token_configured { Some((prev, highest_bid)) } else { None },
                    None => None,
                };
                Ok(BidOutcome {
                    state: AuctionState { config, status, highest_bidder: Some(bidder), highest_bid: amount },
                    refund,
                })
            },
            AuctionMode::Dutch => {
                let elapsed_time = if now >= config.start_time { now - config.start_time } else { 0 };
                let duration = if config.end_time >= config.start_time {
                    config.end_time - config.start_time
                } else {
                    1
                };
                let start_price = match config.dutch_start_price { Some(p) => p, None => config.min_bid };
                let floor_price = match config.dutch_floor_price { Some(p) => p, None => config.min_bid };
                let current_price = compute_dutch_price(
                    start_price,
                    floor_price,
                    elapsed_time,
                    duration,
                    &config.dutch_decay,
                    config.dutch_step_count,
                );
                if amount < current_price {
                    return Err(AuctionError::BidTooLow);
                }
                if amount < config.min_bid {
                    return Err(AuctionError::BidTooLow);
                }
                Ok(BidOutcome {
                    state: AuctionState {
                        config,
                        status: AuctionStatus::Closed,
                        highest_bidder: Some(bidder),
                        highest_bid: amount,
                    },
                    refund: None,
                })
            },
        }
    }

    /// The auction side of a default liquidation: only the registered factory
    /// (the credit contract) may settle, only a closed auction settles, and
    /// each auction settles at most once (`already_settled` is the stored
    /// marker). Reports the winner and the winning bid.
    pub fn settle_default_liquidation(
        state: Option<AuctionState>,
        factory: Option<AccountId>,
        credit_contract: AccountId,
        borrower: AccountId,
        already_settled: bool,
    ) -> (r: Result<SettlementReport, AuctionError>)
        ensures
            match r {
                Ok(rep) => spec_settle_default_liquidation(state, factory, credit_contract, borrower, already_settled)
                    == Ok::<(AccountId, i128), AuctionError>((rep.winner, rep.recovered_amount)),
                Err(e) => spec_settle_default_liquidation(state, factory, credit_contract, borrower, already_settled)
                    == Err::<(AccountId, i128), AuctionError>(e),
            },
    {
        let factory = match factory {
            Some(f) => f,
            None => return Err(AuctionError::NoFactoryContract),
        };
        if !credit_contract.same_as(&factory) {
            return Err(AuctionError::Unauthorized);
        }
        let s = match state {
            Some(s) => s,
            None => return Err(AuctionError::NotFound),
        };
        if s.status != AuctionStatus::Closed {
            return Err(AuctionError::NotClosed);
        }
        if already_settled {
            return Err(AuctionError::AlreadySettled);
        }
        let winner = match s.highest_bidder {
            Some(w) => w,
            None => borrower,
        };
        Ok(SettlementReport { winner, recovered_amount: s.highest_bid })
    }

    /// Claim a closed auction: it must have a winner, and becomes `Claimed`.
    pub fn claim_auction(state: Option<AuctionState>) -> (r: Result<AuctionState, AuctionError>)
        ensures
            r == spec_claim_auction(state),
    {
        let mut s = match state {
            Some(s) => s,
            None => return Err(AuctionError::NotFound),
        };
        if s.status != AuctionStatus::Closed {
            return Err(AuctionError::AuctionNotClosed);
        }
        if s.highest_bidder.is_none() {
            return Err(AuctionError::NoWinner);
        }
        s.status = AuctionStatus::Claimed;
        Ok(s)
    }
}

/// The status transition matrix. From `Open`, a valid English bid keeps the
/// auction `Open` and `close_auction` moves it to `Closed`; from `Closed`,
/// `claim_auction` moves it to `Claimed` when there is a winner. The six
/// other pairs fail: bids on `Closed` or `Claimed` with `AuctionNotOpen`,
/// closing `Closed` with `AuctionNotOpen` and `Claimed` with `AlreadyClaimed`,
/// claiming `Open` or `Claimed` with `AuctionNotClosed`.
pub proof fn lemma_status_transition_matrix(
    s: AuctionState,
    bidder: AccountId,
    amount: i128,
    now: u64,
    grace_window: u64,
    bid_token_configured: bool,
)
    requires
        amount > 0,
    ensures
        s.status == AuctionStatus::Open ==>
            spec_close_auction(Some(s)) == Ok::<AuctionState, AuctionError>(AuctionState { status: AuctionStatus::Closed, ..s }),
        s.status == AuctionStatus::Open ==>
            spec_claim_auction(Some(s)) == Err::<AuctionState, AuctionError>(AuctionError::AuctionNotClosed),
        (s.status == AuctionStatus::Open && s.config.mode == AuctionMode::English && now < s.config.end_time
            && !in_grace_period(s.config, now, grace_window) && amount > english_floor(s)) ==> (
            spec_place_bid(Some(s), bidder, amount, now, grace_window, bid_token_configured) matches Ok((next, _))
                && next.status == AuctionStatus::Open),
        s.status == AuctionStatus::Closed ==>
            spec_place_bid(Some(s), bidder, amount, now, grace_window, bid_token_configured)
                == Err::<(AuctionState, Option<(AccountId, i128)>), AuctionError>(AuctionError::AuctionNotOpen),
        s.status == AuctionStatus::Closed ==>
            spec_close_auction(Some(s)) == Err::<AuctionState, AuctionError>(AuctionError::AuctionNotOpen),
        (s.status == AuctionStatus::Closed && s.highest_bidder is Some) ==>
            spec_claim_auction(Some(s)) == Ok::<AuctionState, AuctionError>(AuctionState { status: AuctionStatus::Claimed, ..s }),
        s.status == AuctionStatus::Claimed ==>
            spec_place_bid(Some(s), bidder, amount, now, grace_window, bid_token_configured)
                == Err::<(AuctionState, Option<(AccountId, i128)>), AuctionError>(AuctionError::AuctionNotOpen),
        s.status == AuctionStatus::Claimed ==>
            spec_close_auction(Some(s)) == Err::<AuctionState, AuctionError>(AuctionError::AlreadyClaimed),
        s.status == AuctionStatus::Claimed ==>
            spec_claim_auction(Some(s)) == Err::<AuctionState, AuctionError>(AuctionError::AuctionNotClosed),
{
}

/// An accepted English bid becomes the new highest bid, strictly above the
/// previous one, and leaves the auction open.
pub proof fn lemma_english_bid_raises_highest_bid(
    state: Option<AuctionState>,
    bidder: AccountId,
    amount: i128,
    now: u64,
    grace_window: u64,
    bid_token_configured: bool,
)
    requires
        state matches Some(s) && s.config.mode == AuctionMode::English,
        spec_place_bid(state, bidder, amount, now, grace_window, bid_token_configured) is Ok,
    ensures
        spec_place_bid(state, bidder, amount, now, grace_window, bid_token_configured) matches Ok((next, _)) && {
            &&& next.highest_bid == amount
            &&& next.highest_bid > state->0.highest_bid
            &&& next.highest_bidder == Some(bidder)
            &&& next.status == AuctionStatus::Open
            &&& next.config == state->0.config
        },
{
}

/// An accepted Dutch bid pays at least the current price and the minimum bid,
/// and closes the auction.
pub proof fn lemma_dutch_bid_closes_at_price(
    state: Option<AuctionState>,
    bidder: AccountId,
    amount: i128,
    now: u64,
    grace_window: u64,
    bid_token_configured: bool,
)
    requires
        state matches Some(s) && s.config.mode == AuctionMode::Dutch,
        spec_place_bid(state, bidder, amount, now, grace_window, bid_token_configured) is Ok,
    ensures
        spec_place_bid(state, bidder, amount, now, grace_window, bid_token_configured) matches Ok((next, refund)) && {
            &&& next.status == AuctionStatus::Closed
            &&& next.highest_bid == amount
            &&& amount >= current_dutch_price(state->0.config, now)
            &&& amount >= state->0.config.min_bid
            &&& refund is None
        },
{
}

/// A Dutch bid during the auction is priced at the time elapsed since the
/// start: below the Dutch price for `now - start_time` of the
/// `end_time - start_time` descent it is refused with `BidTooLow`; at or above
/// that price (and the minimum bid) it wins and closes the auction.
pub proof fn lemma_dutch_bid_priced_at_elapsed_time(
    state: AuctionState,
    bidder: AccountId,
    amount: i128,
    now: u64,
    grace_window: u64,
    bid_token_configured: bool,
    start_price: i128,
    floor_price: i128,
)
    requires
        state.status == AuctionStatus::Open,
        state.config.mode == AuctionMode::Dutch,
        state.config.dutch_start_price == Some(start_price),
        state.config.dutch_floor_price == Some(floor_price),
        state.config.start_time <= now < state.config.end_time,
        grace_window == 0 || now >= state.config.start_time + grace_window,
        amount > 0,
    ensures
        amount < spec_dutch_price(
            start_price as int,
            floor_price as int,
            now - state.config.start_time,
            state.config.end_time - state.config.start_time,
            state.config.dutch_decay,
            state.config.dutch_step_count,
        ) ==> spec_place_bid(Some(state), bidder, amount, now, grace_window, bid_token_configured)
            == Err::<(AuctionState, Option<(AccountId, i128)>), AuctionError>(AuctionError::BidTooLow),
        (amount >= spec_dutch_price(
            start_price as int,
            floor_price as int,
            now - state.config.start_time,
            state.config.end_time - state.config.start_time,
            state.config.dutch_decay,
            state.config.dutch_step_count,
        ) && amount >= state.config.min_bid) ==>
            (spec_place_bid(Some(state), bidder, amount, now, grace_window, bid_token_configured) matches Ok((next, refund))
                && next.status == AuctionStatus::Closed && next.highest_bid == amount
                && next.highest_bidder == Some(bidder) && refund is None),
{
}

/// A settlement that succeeded cannot be replayed: with the settlement
/// marker recorded, the same call fails with `AlreadySettled`.
pub proof fn lemma_settlement_not_replayable(
    state: Option<AuctionState>,
    factory: Option<AccountId>,
    credit_contract: AccountId,
    borrower: AccountId,
)
    requires
        spec_settle_default_liquidation(state, factory, credit_contract, borrower, false) is Ok,
    ensures
        spec_settle_default_liquidation(state, factory, credit_contract, borrower, true)
            == Err::<(AccountId, i128), AuctionError>(AuctionError::AlreadySettled),
{
}

} // verus!
