use creditra::account::AccountId;
use creditra::auction::curves::{calculate_price, CurveError, DecayCurve};
use creditra::auction::machine::Auction;
use creditra::auction::pricing::{
    checked_dutch_price, compute_dutch_price, dutch_price_failure, exp_factor_after, min_next_bid, DutchPriceFailure,
};
use creditra::auction::types::{AuctionError, AuctionMode, AuctionSetupError, AuctionState, AuctionStatus, DutchAuctionDecay};

fn account(key: &str) -> AccountId {
    AccountId { strkey: key.to_string() }
}

#[derive(Clone, Copy, Debug, Eq, PartialEq)]
enum Entrypoint {
    PlaceBid,
    CloseAuction,
    ClaimAuction,
}

#[derive(Clone, Debug)]
struct TransitionCase {
    label: &'static str,
    from: AuctionStatus,
    entrypoint: Entrypoint,
    expect_ok: bool,
    expected_error: Option<AuctionError>,
    expected_to: Option<AuctionStatus>,
}

fn transition_matrix() -> Vec<TransitionCase> {
    vec![
        TransitionCase { label: "Open + place_bid → Open", from: AuctionStatus::Open, entrypoint: Entrypoint::PlaceBid, expect_ok: true, expected_error: None, expected_to: Some(AuctionStatus::Open) },
        TransitionCase { label: "Open + close_auction → Closed", from: AuctionStatus::Open, entrypoint: Entrypoint::CloseAuction, expect_ok: true, expected_error: None, expected_to: Some(AuctionStatus::Closed) },
        TransitionCase { label: "Closed + claim_auction → Claimed", from: AuctionStatus::Closed, entrypoint: Entrypoint::ClaimAuction, expect_ok: true, expected_error: None, expected_to: Some(AuctionStatus::Claimed) },
        TransitionCase { label: "Open + claim_auction → AuctionNotClosed", from: AuctionStatus::Open, entrypoint: Entrypoint::ClaimAuction, expect_ok: false, expected_error: Some(AuctionError::AuctionNotClosed), expected_to: None },
        TransitionCase { label: "Closed + place_bid → AuctionNotOpen", from: AuctionStatus::Closed, entrypoint: Entrypoint::PlaceBid, expect_ok: false, expected_error: Some(AuctionError::AuctionNotOpen), expected_to: None },
        TransitionCase { label: "Closed + close_auction → AuctionNotOpen", from: AuctionStatus::Closed, entrypoint: Entrypoint::CloseAuction, expect_ok: false, expected_error: Some(AuctionError::AuctionNotOpen), expected_to: None },
        TransitionCase { label: "Claimed + place_bid → AuctionNotOpen", from: AuctionStatus::Claimed, entrypoint: Entrypoint::PlaceBid, expect_ok: false, expected_error: Some(AuctionError::AuctionNotOpen), expected_to: None },
        TransitionCase { label: "Claimed + close_auction → AlreadyClaimed", from: AuctionStatus::Claimed, entrypoint: Entrypoint::CloseAuction, expect_ok: false, expected_error: Some(AuctionError::AlreadyClaimed), expected_to: None },
        TransitionCase { label: "Claimed + claim_auction → AuctionNotClosed", from: AuctionStatus::Claimed, entrypoint: Entrypoint::ClaimAuction, expect_ok: false, expected_error: Some(AuctionError::AuctionNotClosed), expected_to: None },
    ]
}

fn english_auction() -> AuctionState {
    Auction::init_auction(AuctionMode::English, 0, u64::MAX, 1, 0, None, None, DutchAuctionDecay::Unset, None).unwrap()
}

fn setup_auction(from: AuctionStatus) -> AuctionState {
    let winner = account("GWINNER");
    let mut state = english_auction();
    if from != AuctionStatus::Open {
        state = Auction::place_bid(Some(state), winner, 100, 10, 0, false).unwrap().state;
        state = Auction::close_auction(Some(state)).unwrap();
    }
    if from == AuctionStatus::Claimed {
        state = Auction::claim_auction(Some(state)).unwrap();
    }
    assert_eq!(state.status, from, "setup must land in the requested starting status");
    state
}

fn invoke(case: &TransitionCase, state: AuctionState) -> Result<AuctionState, AuctionError> {
    match case.entrypoint {
        Entrypoint::PlaceBid => Auction::place_bid(Some(state), account("GBIDDER"), 200, 10, 0, false).map(|o| o.state),
        Entrypoint::CloseAuction => Auction::close_auction(Some(state)),
        Entrypoint::ClaimAuction => Auction::claim_auction(Some(state)),
    }
}

#[test]
fn auction_status_transition_matrix() {
    for case in transition_matrix() {
        let state = setup_auction(case.from);
        let status_before = state.status;
        let result = invoke(&case, state.clone());
        if case.expect_ok {
            let after = result.unwrap_or_else(|e| panic!("{}: expected success, got {:?}", case.label, e));
            assert_eq!(Some(after.status), case.expected_to, "{}: unexpected post-transition status", case.label);
        } else {
            assert_eq!(result.err(), case.expected_error, "{}: wrong AuctionError", case.label);
            assert_eq!(state.status, status_before, "{}: status must be unchanged after illegal transition", case.label);
        }
    }
}

#[test]
fn illegal_transition_count_is_six() {
    let illegal = transition_matrix().into_iter().filter(|c| !c.expect_ok).count();
    assert_eq!(illegal, 6, "matrix must cover exactly six illegal pairs");
}

#[test]
fn legal_transition_count_is_three() {
    let legal = transition_matrix().into_iter().filter(|c| c.expect_ok).count();
    assert_eq!(legal, 3, "matrix must cover exactly three legal pairs");
}

#[test]
fn init_auction_validation() {
    let init = |mode, start, end, min_bid, bps, sp, fp, decay, steps| {
        Auction::init_auction(mode, start, end, min_bid, bps, sp, fp, decay, steps).err()
    };
    assert_eq!(init(AuctionMode::English, 5, 5, 1, 0, None, None, DutchAuctionDecay::Unset, None), Some(AuctionSetupError::InvalidTimes));
    assert_eq!(init(AuctionMode::English, 0, 5, 1, 10_001, None, None, DutchAuctionDecay::Unset, None), Some(AuctionSetupError::IncrementTooHigh));
    assert_eq!(init(AuctionMode::Dutch, 0, 5, 1, 0, None, Some(1), DutchAuctionDecay::Linear, None), Some(AuctionSetupError::MissingDutchStartPrice));
    assert_eq!(init(AuctionMode::Dutch, 0, 5, 1, 0, Some(10), None, DutchAuctionDecay::Linear, None), Some(AuctionSetupError::MissingDutchFloorPrice));
    assert_eq!(init(AuctionMode::Dutch, 0, 5, 1, 0, Some(10), Some(11), DutchAuctionDecay::Linear, None), Some(AuctionSetupError::StartBelowFloor));
    assert_eq!(init(AuctionMode::Dutch, 0, 5, 20, 0, Some(10), Some(5), DutchAuctionDecay::Linear, None), Some(AuctionSetupError::StartBelowMinBid));
    assert_eq!(init(AuctionMode::Dutch, 0, 5, 1, 0, Some(10), Some(5), DutchAuctionDecay::Stepped, Some(0)), Some(AuctionSetupError::ZeroStepCount));
    assert_eq!(init(AuctionMode::Dutch, 0, 5, 1, 0, Some(10), Some(5), DutchAuctionDecay::Stepped, None), Some(AuctionSetupError::MissingStepCount));
    let ok = Auction::init_auction(AuctionMode::Dutch, 0, 5, 1, 0, Some(10), Some(5), DutchAuctionDecay::Stepped, Some(2)).unwrap();
    assert_eq!(ok.status, AuctionStatus::Open);
    assert_eq!(ok.highest_bid, 0);
    assert!(ok.highest_bidder.is_none());
    assert_eq!(ok.config.username_hash, [0u8; 32]);
}

#[test]
fn english_bids_refund_and_grace_window() {
    let state = Auction::init_auction(AuctionMode::English, 100, 1_000, 50, 0, None, None, DutchAuctionDecay::Unset, None).unwrap();
    assert_eq!(Auction::place_bid(Some(state.clone()), account("GA"), 0, 200, 0, true).err(), Some(AuctionError::BidTooLow));
    assert_eq!(Auction::place_bid(None, account("GA"), 10, 200, 0, true).err(), Some(AuctionError::NotFound));
    assert_eq!(Auction::place_bid(Some(state.clone()), account("GA"), 49, 200, 0, true).err(), Some(AuctionError::BidTooLow));
    assert_eq!(Auction::place_bid(Some(state.clone()), account("GA"), 60, 150, 100, true).err(), Some(AuctionError::GracePeriodActive));
    assert_eq!(Auction::place_bid(Some(state.clone()), account("GA"), 60, 1_000, 0, true).err(), Some(AuctionError::AuctionNotOpen));
    let first = Auction::place_bid(Some(state), account("GA"), 50, 200, 100, true).unwrap();
    assert!(first.refund.is_none());
    assert_eq!(Auction::place_bid(Some(first.state.clone()), account("GB"), 50, 210, 0, true).err(), Some(AuctionError::BidTooLow));
    let second = Auction::place_bid(Some(first.state.clone()), account("GB"), 51, 210, 0, true).unwrap();
    let (refunded, amount) = second.refund.unwrap();
    assert_eq!(refunded.strkey, "GA");
    assert_eq!(amount, 50);
    assert_eq!(second.state.highest_bid, 51);
    assert_eq!(second.state.status, AuctionStatus::Open);
    let no_token = Auction::place_bid(Some(first.state), account("GB"), 51, 210, 0, false).unwrap();
    assert!(no_token.refund.is_none());
}

#[test]
fn dutch_bid_closes_at_current_price() {
    let state = Auction::init_auction(AuctionMode::Dutch, 0, 100, 10, 0, Some(1_000), Some(100), DutchAuctionDecay::Linear, None).unwrap();
    // At t = 50 the price is 1000 - 900 * 50 / 100 = 550.
    assert_eq!(Auction::place_bid(Some(state.clone()), account("GA"), 549, 50, 0, false).err(), Some(AuctionError::BidTooLow));
    let won = Auction::place_bid(Some(state), account("GA"), 550, 50, 0, false).unwrap();
    assert_eq!(won.state.status, AuctionStatus::Closed);
    assert_eq!(won.state.highest_bid, 550);
    assert!(won.refund.is_none());
}

#[test]
fn settlement_requires_factory_and_closed_auction() {
    let factory = account("CCREDIT");
    let open = english_auction();
    let closed = Auction::close_auction(Some(Auction::place_bid(Some(open.clone()), account("GW"), 500, 1, 0, false).unwrap().state)).unwrap();
    let settle = |s: Option<AuctionState>, f: Option<AccountId>, c: &str, settled: bool| {
        Auction::settle_default_liquidation(s, f, account(c), account("GBORROWER"), settled)
    };
    assert_eq!(settle(Some(closed.clone()), None, "CCREDIT", false).err().unwrap(), AuctionError::NoFactoryContract);
    assert_eq!(settle(Some(closed.clone()), Some(factory.clone()), "COTHER", false).err().unwrap(), AuctionError::Unauthorized);
    assert_eq!(settle(None, Some(factory.clone()), "CCREDIT", false).err().unwrap(), AuctionError::NotFound);
    assert_eq!(settle(Some(open.clone()), Some(factory.clone()), "CCREDIT", false).err().unwrap(), AuctionError::NotClosed);
    let report = settle(Some(closed.clone()), Some(factory.clone()), "CCREDIT", false).unwrap();
    assert_eq!(report.winner.strkey, "GW");
    assert_eq!(report.recovered_amount, 500);
    assert_eq!(settle(Some(closed), Some(factory.clone()), "CCREDIT", true).err().unwrap(), AuctionError::AlreadySettled);
    let no_bids = Auction::close_auction(Some(open)).unwrap();
    let report = settle(Some(no_bids.clone()), Some(factory), "CCREDIT", false).unwrap();
    assert_eq!(report.winner.strkey, "GBORROWER");
    assert_eq!(report.recovered_amount, 0);
    assert_eq!(Auction::claim_auction(Some(no_bids)).err(), Some(AuctionError::NoWinner));
}

#[test]
fn dutch_price_examples_and_monotonicity() {
    assert_eq!(compute_dutch_price(1_000, 100, 50, 0, &DutchAuctionDecay::Linear, None), 100);
    assert_eq!(compute_dutch_price(1_000, 100, 100, 100, &DutchAuctionDecay::Linear, None), 100);
    assert_eq!(compute_dutch_price(1_000, 100, 0, 100, &DutchAuctionDecay::Linear, None), 1_000);
    assert_eq!(compute_dutch_price(1_000, 100, 50, 100, &DutchAuctionDecay::Unset, None), 550);
    // Four steps over 100: at t = 60, 2 steps passed: 1000 - 900 * 2 / 4 = 550.
    assert_eq!(compute_dutch_price(1_000, 100, 60, 100, &DutchAuctionDecay::Stepped, Some(4)), 550);
    // Exponential: factor after 1 step is 9900, drop = 900 * 100 / 10000 = 9.
    assert_eq!(compute_dutch_price(1_000, 100, 1, 1_000, &DutchAuctionDecay::Exponential, None), 991);
    // After 2 steps the factor is 9801: drop = 900 * 199 / 10000 = 17.
    assert_eq!(compute_dutch_price(1_000, 100, 2, 1_000, &DutchAuctionDecay::Exponential, None), 983);
    for decay in [DutchAuctionDecay::Linear, DutchAuctionDecay::Stepped, DutchAuctionDecay::Exponential] {
        let mut previous = i128::MAX;
        for t in 0..=1_100u64 {
            let p = compute_dutch_price(5_000, -200, t, 1_000, &decay, Some(7));
            assert!(p <= previous, "price rose at t={t} for {decay:?}");
            assert!(p >= -200 && p <= 5_000);
            previous = p;
        }
        assert_eq!(previous, -200);
    }
}

#[test]
fn curve_prices() {
    assert_eq!(calculate_price(1_000, 10, &DecayCurve::Linear { rate: 30 }), Ok(700));
    assert_eq!(calculate_price(1_000, 100, &DecayCurve::Linear { rate: 30 }), Ok(0));
    assert_eq!(calculate_price(1_000, 2, &DecayCurve::Linear { rate: u128::MAX }), Err(CurveError::Overflow));
    assert_eq!(calculate_price(1_000, 25, &DecayCurve::Stepped { step_size: 100, interval: 10 }), Ok(800));
    assert_eq!(calculate_price(1_000, 25, &DecayCurve::Stepped { step_size: 100, interval: 0 }), Err(CurveError::InvalidInput));
    assert_eq!(calculate_price(1_000, 20, &DecayCurve::Stepped { step_size: u128::MAX, interval: 10 }), Err(CurveError::Overflow));
    assert_eq!(calculate_price(10_000, 2, &DecayCurve::Exponential { factor: 9, scale: 10 }), Ok(8_100));
    assert_eq!(calculate_price(10_000, 0, &DecayCurve::Exponential { factor: 9, scale: 10 }), Ok(10_000));
    assert_eq!(calculate_price(10_000, 3, &DecayCurve::Exponential { factor: 9, scale: 0 }), Err(CurveError::InvalidInput));
    assert_eq!(calculate_price(u128::MAX, 1, &DecayCurve::Exponential { factor: 2, scale: 1 }), Err(CurveError::Overflow));
}

#[test]
fn minimum_next_bid() {
    assert_eq!(min_next_bid(1_000, 500), 1_050);
    assert_eq!(min_next_bid(1_001, 500), 1_052);
    assert_eq!(min_next_bid(10, 0), 11);
    assert_eq!(min_next_bid(0, 10_000), 1);
    assert_eq!(min_next_bid(-15_000, 10_000), -14_999);
    assert_eq!(min_next_bid(-3, 5_000), -2);
}

#[test]
fn checked_price_rejects_overflow_and_bad_parameters() {
    assert_eq!(checked_dutch_price(1_000, 100, 50, 100, &DutchAuctionDecay::Linear, None), Some(550));
    assert_eq!(checked_dutch_price(100, 1_000, 50, 100, &DutchAuctionDecay::Linear, None), None);
    assert_eq!(checked_dutch_price(i128::MAX, 0, 50, 100, &DutchAuctionDecay::Linear, None), None);
    assert_eq!(checked_dutch_price(1_000, 100, 50, 100, &DutchAuctionDecay::Stepped, None), None);
    assert_eq!(checked_dutch_price(1_000, 100, 50, 100, &DutchAuctionDecay::Stepped, Some(0)), None);
    assert_eq!(checked_dutch_price(1_000, 100, 500, 100, &DutchAuctionDecay::Stepped, None), Some(100));
    assert_eq!(checked_dutch_price(i128::MAX, i128::MIN, 5, 100, &DutchAuctionDecay::Exponential, None), None);
    assert_eq!(exp_factor_after(0), 10_000);
    assert_eq!(exp_factor_after(1), 9_900);
    assert_eq!(exp_factor_after(1_000), exp_factor_after(100));
}

#[test]
fn bid_priceability_only_matters_for_dutch_bids_that_reach_pricing() {
    let mut dutch = Auction::init_auction(AuctionMode::Dutch, 0, 100, 0, 0, Some(i128::MAX), Some(0), DutchAuctionDecay::Linear, None).unwrap();
    assert!(!Auction::bid_is_priceable(&Some(dutch.clone()), 10, 50, 0));
    assert!(Auction::bid_is_priceable(&Some(dutch.clone()), 0, 50, 0));
    assert!(Auction::bid_is_priceable(&Some(dutch.clone()), 10, 100, 0));
    assert!(Auction::bid_is_priceable(&Some(dutch.clone()), 10, 0, 0));
    dutch.status = AuctionStatus::Closed;
    assert!(Auction::bid_is_priceable(&Some(dutch), 10, 50, 0));
    assert!(Auction::bid_is_priceable(&None, 10, 50, 0));
    assert!(Auction::bid_is_priceable(&Some(english_auction()), 10, 50, 0));
}

#[test]
fn dutch_price_failures_name_their_step() {
    let linear = DutchAuctionDecay::Linear;
    let stepped = DutchAuctionDecay::Stepped;
    assert_eq!(dutch_price_failure(1_000, 100, 50, 100, &linear, None), None);
    assert_eq!(dutch_price_failure(100, 1_000, 50, 100, &linear, None), Some(DutchPriceFailure::StartBelowFloor));
    assert_eq!(dutch_price_failure(i128::MAX, -1, 50, 100, &linear, None), Some(DutchPriceFailure::StartBelowFloor));
    assert_eq!(dutch_price_failure(i128::MAX, 0, 50, 100, &linear, None), Some(DutchPriceFailure::DropOverflow));
    assert_eq!(dutch_price_failure(1_000, 100, 50, 100, &stepped, None), Some(DutchPriceFailure::StepCountMissing));
    assert_eq!(dutch_price_failure(1_000, 100, 50, 100, &stepped, Some(0)), Some(DutchPriceFailure::StepCountZero));
    assert_eq!(dutch_price_failure(1_000, 100, u64::MAX - 1, u64::MAX, &stepped, Some(4)), Some(DutchPriceFailure::StepOverflow));
    assert_eq!(
        dutch_price_failure(i128::MAX, i128::MIN, 5, 100, &DutchAuctionDecay::Exponential, None),
        Some(DutchPriceFailure::StartBelowFloor)
    );
    assert_eq!(
        dutch_price_failure(i128::MAX, 0, 5, 100, &DutchAuctionDecay::Exponential, None),
        Some(DutchPriceFailure::ExponentialOverflow)
    );
    assert_eq!(DutchPriceFailure::DropOverflow.message(), "overflow in Dutch price calculation");
    assert_eq!(DutchPriceFailure::StepCountMissing.message(), "dutch_step_count required for stepped Dutch auctions");
    let dutch = Auction::init_auction(AuctionMode::Dutch, 0, 100, 0, 0, Some(i128::MAX), Some(0), DutchAuctionDecay::Linear, None).unwrap();
    assert_eq!(Auction::bid_price_failure(&Some(dutch.clone()), 10, 50, 0), Some(DutchPriceFailure::DropOverflow));
    assert_eq!(Auction::bid_price_failure(&Some(dutch), 10, 100, 0), None);
}
