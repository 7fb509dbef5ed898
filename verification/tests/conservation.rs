use creditra::account::AccountId;
use creditra::auction::machine::Auction;
use creditra::auction::types::{AuctionMode, DutchAuctionDecay};
use creditra::credit::borrow::draw_credit;
use creditra::credit::lifecycle::{default_credit_line, open_credit_line};
use creditra::credit::settlement::{confirm_auction_proceeds, settle_default_liquidation};
use creditra::credit::types::{ContractError, CreditLineData, CreditStatus, DrawLimits};

const CREDIT_LIMIT: i128 = 10_000;
const INTEREST_RATE_BPS: u32 = 0;
const RISK_SCORE: u32 = 60;
const MIN_BID: i128 = 100;
const START_TS: u64 = 100;
const AUCTION_DURATION: u64 = 1_000;

fn account(key: &str) -> AccountId {
    AccountId { strkey: key.to_string() }
}

fn no_limits() -> DrawLimits {
    DrawLimits {
        draws_frozen: false,
        borrower_blocked: false,
        max_draw_amount: None,
        min_draw_interval: None,
        last_draw_ts: None,
        max_total_exposure: None,
        total_utilized: 0,
    }
}

fn setup_defaulted_credit(draw_amount: i128) -> CreditLineData {
    let borrower = account("GBORROWER");
    let line = open_credit_line(false, &None, borrower.clone(), CREDIT_LIMIT, INTEREST_RATE_BPS, RISK_SCORE, (None, None), START_TS)
        .unwrap()
        .line;
    let drawn = draw_credit(Some(line), &borrower, draw_amount, START_TS, &no_limits(), Some(CREDIT_LIMIT)).unwrap();
    assert_eq!(drawn.status, CreditStatus::Active);
    assert_eq!(drawn.utilized_amount, draw_amount);
    let defaulted = default_credit_line(false, Some(drawn), START_TS).unwrap().line;
    assert_eq!(defaulted.status, CreditStatus::Defaulted);
    assert_eq!(defaulted.utilized_amount, draw_amount);
    defaulted
}

fn run_conservation_test(draw_amount: i128, highest_bid: i128) {
    let pre_line = setup_defaulted_credit(draw_amount);
    let pre_utilized = pre_line.utilized_amount;
    let credit_contract = account("CCREDIT");

    // Run the auction.
    let end_time = START_TS + AUCTION_DURATION;
    let state = Auction::init_auction(AuctionMode::English, START_TS, end_time, MIN_BID, 0, None, None, DutchAuctionDecay::Unset, None).unwrap();
    let state = Auction::place_bid(Some(state), account("GBIDDER"), highest_bid / 2, START_TS, 0, false).unwrap().state;
    let state = Auction::place_bid(Some(state), account("GWINNER"), highest_bid, START_TS, 0, false).unwrap().state;
    let state = Auction::close_auction(Some(state)).unwrap();
    assert_eq!(state.highest_bid, highest_bid);

    // The auction reports its proceeds, and the marker is recorded once.
    let mut marker_set = false;
    let report = Auction::settle_default_liquidation(Some(state.clone()), Some(credit_contract.clone()), credit_contract.clone(), account("GBORROWER"), marker_set).unwrap();
    marker_set = true;
    assert_eq!(report.recovered_amount, highest_bid);
    assert_eq!(confirm_auction_proceeds(highest_bid, Some(report.recovered_amount)), Ok(()));

    let post_line = settle_default_liquidation(false, Some(pre_line), highest_bid, false, START_TS).unwrap();
    assert_eq!(pre_utilized - post_line.utilized_amount, highest_bid);
    assert!(marker_set);

    // Replays fail on both sides.
    assert!(Auction::settle_default_liquidation(Some(state), Some(credit_contract.clone()), credit_contract, account("GBORROWER"), marker_set).is_err());
    assert_eq!(settle_default_liquidation(false, Some(post_line), highest_bid, true, START_TS).err(), Some(ContractError::AlreadyInitialized));
}

#[test]
fn conservation_test_full_recovery() {
    run_conservation_test(1_500, 1_500);
}

#[test]
fn conservation_test_partial_recovery_1() {
    run_conservation_test(2_000, 1_200);
}

#[test]
fn conservation_test_partial_recovery_2() {
    run_conservation_test(5_000, 3_500);
}

#[test]
fn mismatched_auction_proceeds_are_refused() {
    assert_eq!(confirm_auction_proceeds(1_000, Some(999)), Err(ContractError::InvalidAmount));
    assert_eq!(confirm_auction_proceeds(1_000, None), Ok(()));
}
