//! The credit-line contract: lifecycle, borrowing, repayment, collateral,
//! settlement and storage migrations.

pub mod accrual;
pub mod borrow;
pub mod collateral;
pub mod fees;
pub mod laws;
pub mod lifecycle;
pub mod migrations;
pub mod risk;
pub mod settlement;
pub mod totals;
pub mod types;
