//! Data model of the credit contract.

use vstd::prelude::*;
use crate::account::AccountId;

verus! {

/// Highest annual interest rate a line may carry, in basis points (100%).
pub const MAX_INTEREST_RATE_BPS: u32 = 10_000;

/// Highest borrower risk score.
pub const MAX_RISK_SCORE: u32 = 100;

/// Basis points in one whole.
pub const BPS_DENOMINATOR: i128 = 10_000;

/// Collateral ratio floor applied when none is configured (150%).
pub const DEFAULT_MIN_COLLATERAL_RATIO_BPS: u32 = 15_000;

/// Storage schema version this contract expects.
pub const SCHEMA_VERSION: u32 = 1;

/// Status of a credit line.
#[derive(Clone, Copy, Debug, PartialEq, Eq, Structural)]
pub enum CreditStatus {
    Active,
    Suspended,
    Defaulted,
    Closed,
    Restricted,
}

/// A borrower's credit line.
#[derive(Clone, Debug)]
pub struct CreditLineData {
    pub borrower: AccountId,
    pub credit_limit: i128,
    pub utilized_amount: i128,
    pub interest_rate_bps: u32,
    pub risk_score: u32,
    pub status: CreditStatus,
    pub last_rate_update_ts: u64,
    pub accrued_interest: i128,
    pub last_accrual_ts: u64,
    pub suspension_ts: u64,
}

/// Error codes of the credit contract, in the order of their codes (1 to 39).
#[derive(Clone, Copy, Debug, PartialEq, Eq, Structural)]
pub enum ContractError {
    Unauthorized,
    NotAdmin,
    CreditLineNotFound,
    CreditLineClosed,
    InvalidAmount,
    OverLimit,
    NegativeLimit,
    RateTooHigh,
    ScoreTooHigh,
    UtilizationNotZero,
    Reentrancy,
    Overflow,
    LimitDecreaseRequiresRepayment,
    AlreadyInitialized,
    AdminAcceptTooEarly,
    BorrowerBlocked,
    DrawExceedsMaxAmount,
    Paused,
    DrawsFrozen,
    CreditLineSuspended,
    CreditLineDefaulted,
    MissingLiquidityToken,
    MissingLiquiditySource,
    InsufficientLiquidityReserve,
    LiquidityTokenCallFailed,
    InsufficientRepaymentAllowance,
    InsufficientRepaymentBalance,
    RepayExceedsMaxAmount,
    DrawCooldownActive,
    TreasuryNotSet,
    ExposureCapExceeded,
    AdminNotInitialized,
    TimestampRegression,
    LimitOutOfBounds,
    CollateralRatioBelowMinimum,
    OraclePriceInvalid,
    OraclePriceStale,
    OraclePriceDeviation,
    CloseFactorAboveMax,
}

/// Reasons the contract aborts with a message rather than an error code.
#[derive(Clone, Copy, Debug, PartialEq, Eq, Structural)]
pub enum PanicReason {
    BorrowerMismatch,
    InsufficientLiquidityReserve,
    OnlyActiveCanBeSuspended,
    OnlyActiveCanBeSelfSuspended,
    CollateralReleaseOverflow,
    SchemaVersionTooNew,
    MissingMigration,
}

/// The message the contract aborts with for `reason`.
pub open spec fn panic_message(reason: PanicReason) -> Seq<char> {
    match reason {
        PanicReason::BorrowerMismatch => "Borrower mismatch for credit line"@,
        PanicReason::InsufficientLiquidityReserve => "Insufficient liquidity reserve for requested draw amount"@,
        PanicReason::OnlyActiveCanBeSuspended => "Only active credit lines can be suspended"@,
        PanicReason::OnlyActiveCanBeSelfSuspended => "Only active credit lines can be self-suspended"@,
        PanicReason::CollateralReleaseOverflow => "math_utils: mul overflow"@,
        PanicReason::SchemaVersionTooNew => "stored schema version is newer than this contract"@,
        PanicReason::MissingMigration => "missing storage migration"@,
    }
}

impl PanicReason {
    /// The message the contract aborts with.
    pub fn message(&self) -> (r: &'static str)
        ensures
            r@ == panic_message(*self),
    {
        match self {
            PanicReason::BorrowerMismatch => "Borrower mismatch for credit line",
            PanicReason::InsufficientLiquidityReserve => "Insufficient liquidity reserve for requested draw amount",
            PanicReason::OnlyActiveCanBeSuspended => "Only active credit lines can be suspended",
            PanicReason::OnlyActiveCanBeSelfSuspended => "Only active credit lines can be self-suspended",
            PanicReason::CollateralReleaseOverflow => "math_utils: mul overflow",
            PanicReason::SchemaVersionTooNew => "stored schema version is newer than this contract",
            PanicReason::MissingMigration => "missing storage migration",
        }
    }
}

/// How a credit-contract call fails: with an error code, or aborting with a message.
#[derive(Clone, Copy, Debug, PartialEq, Eq, Structural)]
pub enum Failure {
    Contract(ContractError),
    Panic(PanicReason),
}

/// What the configured liquidity token reports of a borrower before a repayment.
#[derive(Clone, Copy, Debug, PartialEq, Eq, Structural)]
pub struct TokenFunds {
    /// The borrower's allowance for the credit contract.
    pub allowance: i128,
    /// The borrower's balance.
    pub balance: i128,
}

/// An installment repayment schedule.
#[derive(Clone, Copy, Debug, PartialEq, Eq, Structural)]
pub struct RepaymentSchedule {
    pub amount_per_period: i128,
    pub period_seconds: u64,
    pub next_due_ts: u64,
}

/// Protocol-wide and per-borrower restrictions on drawing.
#[derive(Clone, Copy, Debug, PartialEq, Eq, Structural)]
pub struct DrawLimits {
    /// Draws are frozen for everyone.
    pub draws_frozen: bool,
    /// The borrower is on the block list.
    pub borrower_blocked: bool,
    /// Largest amount one draw may take, when capped.
    pub max_draw_amount: Option<i128>,
    /// Shortest time between two draws of the borrower, when set.
    pub min_draw_interval: Option<u64>,
    /// When the borrower last drew, if ever.
    pub last_draw_ts: Option<u64>,
    /// Cap on the protocol's total utilization, when set.
    pub max_total_exposure: Option<i128>,
    /// The protocol's total utilization before the draw.
    pub total_utilized: i128,
}

/// Piecewise-linear interest-rate formula driven by the risk score.
#[derive(Clone, Copy, Debug, PartialEq, Eq, Structural)]
pub struct RateFormulaConfig {
    pub base_rate_bps: u32,
    pub slope_bps_per_score: u32,
    pub min_rate_bps: u32,
    pub max_rate_bps: u32,
}

/// Oracle circuit-breaker configuration.
#[derive(Clone, Copy, Debug, PartialEq, Eq, Structural)]
pub struct OracleConfig {
    pub max_deviation_bps: u32,
    pub max_age_seconds: u64,
}

/// A credit line after an operation that may leave it as it was.
#[derive(Clone, Debug)]
pub struct LineUpdate {
    /// The line after the operation; the caller stores it when `changed`.
    pub line: CreditLineData,
    /// Whether the operation changed the line (and emits its event).
    pub changed: bool,
}

} // verus!
