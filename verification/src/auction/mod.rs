//! The liquidation auction: pricing curves, Dutch pricing and the auction
//! state machine.

pub mod curves;
pub mod machine;
pub mod pricing;
pub mod types;
