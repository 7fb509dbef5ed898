//! Data model of the liquidation auction.

use vstd::prelude::*;
use crate::account::AccountId;

verus! {

/// How bids are taken.
#[derive(Clone, Copy, Debug, PartialEq, Eq, Structural)]
pub enum AuctionMode {
    /// Ascending bids; the auction stays open until closed explicitly.
    English,
    /// Descending price; the first bid at or above the current price wins.
    Dutch,
}

/// Lifecycle of an auction: `Open -> Closed -> Claimed`.
#[derive(Clone, Copy, Debug, PartialEq, Eq, Structural)]
pub enum AuctionStatus {
    Open,
    Closed,
    Claimed,
}

/// Price decay used by Dutch auctions.
#[derive(Clone, Copy, Debug, PartialEq, Eq, Structural)]
pub enum DutchAuctionDecay {
    /// No decay was chosen; priced like `Linear`.
    Unset,
    Linear,
    Stepped,
    Exponential,
}

/// Errors the auction contract reverts with.
#[derive(Clone, Copy, Debug, PartialEq, Eq, Structural)]
pub enum AuctionError {
    NotFound,
    AlreadyClaimed,
    BidTooLow,
    AuctionNotOpen,
    AuctionNotClosed,
    NotClosed,
    NoWinner,
    AlreadySettled,
    Unauthorized,
    NoFactoryContract,
    GracePeriodActive,
}

/// Why an auction's parameters are refused at creation.
#[derive(Clone, Copy, Debug, PartialEq, Eq, Structural)]
pub enum AuctionSetupError {
    /// `start_time` is not before `end_time`.
    InvalidTimes,
    /// `min_increment_bps` exceeds 10 000 (100%).
    IncrementTooHigh,
    /// A Dutch auction needs `dutch_start_price`.
    MissingDutchStartPrice,
    /// A Dutch auction needs `dutch_floor_price`.
    MissingDutchFloorPrice,
    /// `dutch_start_price` is below `dutch_floor_price`.
    StartBelowFloor,
    /// `dutch_start_price` is below `min_bid`.
    StartBelowMinBid,
    /// A stepped Dutch auction has `dutch_step_count == Some(0)`.
    ZeroStepCount,
    /// A stepped Dutch auction has no `dutch_step_count`.
    MissingStepCount,
}

/// Parameters fixed when an auction is created.
#[derive(Clone, Debug)]
pub struct AuctionConfig {
    pub mode: AuctionMode,
    pub username_hash: [u8; 32],
    pub start_time: u64,
    pub end_time: u64,
    pub min_bid: i128,
    pub min_increment_bps: u32,
    pub dutch_start_price: Option<i128>,
    pub dutch_floor_price: Option<i128>,
    pub dutch_decay: DutchAuctionDecay,
    pub dutch_step_count: Option<u32>,
}

/// The stored state of one auction.
#[derive(Clone, Debug)]
pub struct AuctionState {
    pub config: AuctionConfig,
    pub status: AuctionStatus,
    pub highest_bidder: Option<AccountId>,
    pub highest_bid: i128,
}

/// Storage keys of per-auction markers.
#[derive(Clone, Debug)]
pub enum AuctionKey {
    Closed(String),
    LiquidationSettled(String),
}

} // verus!
