//! Verified core of the Creditra credit-line protocol and its liquidation
//! auction: pricing curves, auction state transitions, credit-line lifecycle,
//! borrowing, repayment, collateral and settlement accounting.

pub mod account;
pub mod auction;
pub mod credit;
pub mod math;
