use creditra::account::AccountId;
use creditra::credit::borrow::{
    draw_credit, repay_and_release_collateral, repay_credit, repay_credit_internal, RepayOutcome, RepayReleaseOutcome,
};
use creditra::credit::collateral::{deposit_collateral, withdraw_collateral};
use creditra::credit::lifecycle::{
    advance_repayment_schedule_after_repay, close_credit_line, close_credit_lines_batch, default_credit_line,
    open_credit_line, reinstate_credit_line, set_repayment_schedule, settle_default_liquidation, suspend_credit_line,
};
use creditra::credit::settlement;
use creditra::credit::totals::{record_line_change, snapshot, ProtocolTotals};
use creditra::credit::types::{
    ContractError, CreditLineData, CreditStatus, DrawLimits, Failure, LineUpdate, OracleConfig, PanicReason,
    RepaymentSchedule, TokenFunds,
};

/// Time at which the test lines are opened; operations at this time accrue nothing.
const T0: u64 = 1_000;

fn no_limits() -> DrawLimits {
    DrawLimits {
        draws_frozen: false,
        borrower_blocked: false,
        max_draw_amount: None,
        min_draw_interval: None,
        last_draw_ts: None,
        max_total_exposure: None,
        total_utilized: 0,
    }
}

fn draw(line: Option<CreditLineData>, who: &AccountId, amount: i128, reserve: Option<i128>) -> Result<CreditLineData, Failure> {
    draw_credit(line, who, amount, T0, &no_limits(), reserve)
}

fn repay(line: Option<CreditLineData>, amount: i128, funds: Option<TokenFunds>) -> Result<RepayOutcome, Failure> {
    repay_credit(line, amount, T0, None, funds)
}

fn repay_release(
    line: Option<CreditLineData>,
    amount: i128,
    funds: Option<TokenFunds>,
    collateral: i128,
) -> Result<RepayReleaseOutcome, Failure> {
    repay_and_release_collateral(line, amount, T0, None, funds, collateral)
}

fn default_line(paused: bool, line: Option<CreditLineData>) -> Result<LineUpdate, ContractError> {
    default_credit_line(paused, line, T0)
}

fn reinstate(paused: bool, line: Option<CreditLineData>, target: CreditStatus) -> Result<CreditLineData, ContractError> {
    reinstate_credit_line(paused, line, target, T0)
}

fn settle(line: Option<CreditLineData>, recovered: i128, settled: bool, factor: u32, max_factor: u32) -> Result<CreditLineData, ContractError> {
    settle_default_liquidation(line, recovered, settled, factor, max_factor, T0)
}

fn settle_plain(paused: bool, line: Option<CreditLineData>, recovered: i128, settled: bool) -> Result<CreditLineData, ContractError> {
    settlement::settle_default_liquidation(paused, line, recovered, settled, T0)
}

fn account(key: &str) -> AccountId {
    AccountId { strkey: key.to_string() }
}

fn opened(borrower: &str, limit: i128) -> CreditLineData {
    open_credit_line(false, &None, account(borrower), limit, 500, 50, (None, None), 1_000).unwrap().line
}

fn drawn(borrower: &str, limit: i128, amount: i128) -> CreditLineData {
    draw(Some(opened(borrower, limit)), &account(borrower), amount, None).unwrap()
}

fn defaulted(borrower: &str, limit: i128, amount: i128) -> CreditLineData {
    default_line(false, Some(drawn(borrower, limit, amount))).unwrap().line
}

fn funds(allowance: i128, balance: i128) -> Option<TokenFunds> {
    Some(TokenFunds { allowance, balance })
}

// ── repayment ────────────────────────────────────────────────────────────

#[test]
fn overpayment_is_capped_and_never_increases_utilization() {
    let line = drawn("GA", 10_000, 1_000);
    let utilized_before = line.utilized_amount;
    assert_eq!(utilized_before, 1_000);
    let out = repay(Some(line), 10_000, None).unwrap();
    assert_eq!(out.line.utilized_amount, 0, "overpayment should zero out utilization");
    assert_eq!(out.effective_repay, 1_000);
    assert!(out.line.utilized_amount <= utilized_before);
}

#[test]
fn full_repay_after_interest_decreases_utilization() {
    // 50% APR
    let line = open_credit_line(false, &None, account("GA"), 100_000, 5_000, 50, (None, None), 1_000).unwrap().line;
    let line = draw(Some(line), &account("GA"), 10_000, None).unwrap();
    let utilized_before = line.utilized_amount;
    assert_eq!(utilized_before, 10_000);
    // One year later interest has accrued; repay more than the principal.
    let out = repay_credit(Some(line), 20_000, 1_000 + 31_536_000, None, None).unwrap();
    assert_eq!(out.effective_repay, 15_000);
    let after = out.line;
    assert!(after.utilized_amount <= utilized_before);
    assert_eq!(after.utilized_amount, 0);
}

#[test]
fn repay_one_borrower_does_not_affect_another() {
    let a = draw(Some(opened("GA", 10_000)), &account("GA"), 5_000, Some(1_000_000)).unwrap();
    let b = draw(Some(opened("GB", 10_000)), &account("GB"), 3_000, Some(995_000)).unwrap();
    let b_before = b.utilized_amount;
    let a_after = repay(Some(a), 5_000, funds(5_000, 5_000)).unwrap();
    assert_eq!(a_after.line.utilized_amount, 0);
    assert_eq!(b.utilized_amount, b_before);
}

#[test]
fn repay_reduces_interest_first_and_utilization_by_amount() {
    let mut line = drawn("GA", 10_000, 4_000);
    line.accrued_interest = 300;
    let after = repay(Some(line.clone()), 500, None).unwrap();
    assert_eq!(after.effective_repay, 500);
    assert_eq!(after.line.utilized_amount, 3_500);
    assert_eq!(after.line.accrued_interest, 0);
    let after = repay(Some(line), 200, None).unwrap();
    assert_eq!(after.line.accrued_interest, 100);
    assert_eq!(after.line.utilized_amount, 3_800);
}

#[test]
fn repay_credit_internal_floors_at_zero() {
    let mut line = drawn("GA", 10_000, 100);
    line.accrued_interest = 50;
    let after = repay_credit_internal(line.clone(), 500, 50);
    assert_eq!(after.utilized_amount, 0);
    assert_eq!(after.accrued_interest, 0);
    line.accrued_interest = i128::MIN;
    let after = repay_credit_internal(line, 10, 1);
    assert_eq!(after.accrued_interest, 0);
    assert_eq!(after.utilized_amount, 90);
}

#[test]
fn repay_errors() {
    assert_eq!(repay(None, 0, None).err(), Some(Failure::Contract(ContractError::InvalidAmount)));
    assert_eq!(repay(None, 10, None).err(), Some(Failure::Contract(ContractError::CreditLineNotFound)));
    let closed = close_credit_line(false, Some(opened("GA", 100)), &account("GA"), &account("GA"), &account("GADMIN"))
        .unwrap()
        .line;
    assert_eq!(repay(Some(closed), 10, None).err(), Some(Failure::Contract(ContractError::CreditLineClosed)));
    // Nothing outstanding: no token check applies.
    assert_eq!(repay(Some(opened("GA", 100)), 10, funds(0, 0)).unwrap().effective_repay, 0);
}

#[test]
fn repay_credit_insufficient_allowance_rolls_back() {
    let line = draw(Some(opened("GA", 1_000)), &account("GA"), 500, Some(1_000)).unwrap();
    let result = repay(Some(line.clone()), 500, funds(200, 500));
    assert_eq!(result.err(), Some(Failure::Contract(ContractError::InsufficientRepaymentAllowance)));
    assert_eq!(line.utilized_amount, 500);
    assert_eq!(line.accrued_interest, 0);
}

#[test]
fn repay_credit_insufficient_balance_rolls_back() {
    let line = draw(Some(opened("GA", 1_000)), &account("GA"), 500, Some(1_000)).unwrap();
    let result = repay(Some(line.clone()), 500, funds(500, 0));
    assert_eq!(result.err(), Some(Failure::Contract(ContractError::InsufficientRepaymentBalance)));
    assert_eq!(line.utilized_amount, 500);
}

// ── drawing ──────────────────────────────────────────────────────────────

#[test]
fn draw_credit_insufficient_reserve_rolls_back() {
    let line = opened("GA", 1_000);
    let result = draw(Some(line.clone()), &account("GA"), 500, Some(400));
    assert_eq!(result.err(), Some(Failure::Panic(PanicReason::InsufficientLiquidityReserve)));
    assert_eq!(line.utilized_amount, 0);
    assert_eq!(line.status, CreditStatus::Active);
}

#[test]
fn draw_checks_in_order() {
    let a = account("GA");
    assert_eq!(draw(None, &a, 0, None).err(), Some(Failure::Contract(ContractError::InvalidAmount)));
    assert_eq!(draw(None, &a, 1, None).err(), Some(Failure::Contract(ContractError::CreditLineNotFound)));
    assert_eq!(
        draw(Some(opened("GA", 1_000)), &account("GB"), 1, None).err(),
        Some(Failure::Panic(PanicReason::BorrowerMismatch))
    );
    assert_eq!(
        draw(Some(drawn("GA", 1_000, 900)), &a, 101, None).err(),
        Some(Failure::Contract(ContractError::OverLimit))
    );
    let mut full = drawn("GA", i128::MAX, 10);
    full.utilized_amount = i128::MAX;
    assert_eq!(draw(Some(full), &a, 1, None).err(), Some(Failure::Contract(ContractError::Overflow)));
    let mut restricted = opened("GA", 1_000);
    restricted.status = CreditStatus::Restricted;
    assert_eq!(draw(Some(restricted), &a, 1, None).err(), Some(Failure::Contract(ContractError::InvalidAmount)));
    assert_eq!(draw(Some(drawn("GA", 1_000, 900)), &a, 100, Some(100)).unwrap().utilized_amount, 1_000);
}

#[test]
fn suspend_blocks_draws_but_allows_repayment() {
    let line = drawn("GA", 1_000, 400);
    let suspended = suspend_credit_line(false, Some(line)).unwrap();
    assert_eq!(suspended.status, CreditStatus::Suspended);
    assert_eq!(
        draw(Some(suspended.clone()), &account("GA"), 1, None).err(),
        Some(Failure::Contract(ContractError::CreditLineSuspended))
    );
    let repaid = repay(Some(suspended), 100, None).unwrap();
    assert_eq!(repaid.line.utilized_amount, 300);
    assert_eq!(repaid.line.status, CreditStatus::Suspended);
}

#[test]
fn default_blocks_draws_but_allows_repayment() {
    let line = defaulted("GA", 1_000, 400);
    assert_eq!(line.status, CreditStatus::Defaulted);
    assert_eq!(draw(Some(line.clone()), &account("GA"), 1, None).err(), Some(Failure::Contract(ContractError::CreditLineDefaulted)));
    assert_eq!(repay(Some(line), 400, None).unwrap().line.utilized_amount, 0);
}

// ── collateral ───────────────────────────────────────────────────────────

#[test]
fn repay_and_release_collateral_is_proportional() {
    let line = drawn("GA", 10_000, 1_000);
    let out = repay_release(Some(line.clone()), 250, None, 1_500).unwrap();
    assert_eq!(out.effective_repay, 250);
    assert_eq!(out.released, 375);
    assert_eq!(out.collateral_balance, 1_125);
    assert_eq!(out.line.utilized_amount, 750);
    let out = repay_release(Some(line.clone()), 333, None, 1_000).unwrap();
    assert_eq!(out.released, 333);
    let out = repay_release(Some(line.clone()), 5_000, None, 1_500).unwrap();
    assert_eq!(out.effective_repay, 1_000);
    assert_eq!(out.released, 1_500);
    assert_eq!(out.collateral_balance, 0);
    let out = repay_release(Some(line), 100, None, 0).unwrap();
    assert_eq!(out.released, 0);
}

#[test]
fn repay_and_release_collateral_overflow_aborts() {
    let mut line = drawn("GA", i128::MAX, 1);
    line.utilized_amount = i128::MAX;
    let result = repay_release(Some(line), i128::MAX / 2, None, i128::MAX);
    assert_eq!(result.err(), Some(Failure::Panic(PanicReason::CollateralReleaseOverflow)));
}

#[test]
fn deposit_and_withdraw_collateral() {
    assert_eq!(deposit_collateral(100, 0, true), Err(ContractError::InvalidAmount));
    assert_eq!(deposit_collateral(100, 50, false), Err(ContractError::MissingLiquidityToken));
    assert_eq!(deposit_collateral(i128::MAX, 1, true), Err(ContractError::Overflow));
    assert_eq!(deposit_collateral(100, 50, true), Ok(150));

    let line = Some(drawn("GA", 10_000, 1_000));
    assert_eq!(withdraw_collateral(1_500, 0, &line, None, true), Err(ContractError::InvalidAmount));
    assert_eq!(withdraw_collateral(1_500, 1_501, &line, None, true), Err(ContractError::InsufficientRepaymentBalance));
    // 150% of 1_000 must stay behind.
    assert_eq!(withdraw_collateral(1_600, 101, &line, None, true), Err(ContractError::CollateralRatioBelowMinimum));
    assert_eq!(withdraw_collateral(1_600, 100, &line, None, true), Ok(1_500));
    assert_eq!(withdraw_collateral(1_600, 100, &line, None, false), Err(ContractError::MissingLiquidityToken));
    assert_eq!(withdraw_collateral(1_600, 1_600, &line, Some(0), true), Ok(0));
    assert_eq!(withdraw_collateral(1_600, 1_600, &None, None, true), Ok(0));
    let mut huge = drawn("GA", i128::MAX, 1);
    huge.utilized_amount = i128::MAX;
    assert_eq!(withdraw_collateral(10, 1, &Some(huge), None, true), Err(ContractError::Overflow));
}

// ── lifecycle ────────────────────────────────────────────────────────────

#[test]
fn suspend_errors() {
    assert_eq!(suspend_credit_line(true, None).err(), Some(Failure::Contract(ContractError::Paused)));
    assert_eq!(suspend_credit_line(false, None).err(), Some(Failure::Contract(ContractError::CreditLineNotFound)));
    let suspended = suspend_credit_line(false, Some(opened("GA", 10))).unwrap();
    assert_eq!(
        suspend_credit_line(false, Some(suspended)).err(),
        Some(Failure::Panic(PanicReason::OnlyActiveCanBeSuspended))
    );
}

#[test]
fn close_authorization_and_idempotence() {
    let admin = account("GADMIN");
    let borrower = account("GA");
    let owing = drawn("GA", 1_000, 10);
    assert_eq!(
        close_credit_line(false, Some(owing.clone()), &borrower, &borrower, &admin).err(),
        Some(ContractError::UtilizationNotZero)
    );
    assert_eq!(
        close_credit_line(false, Some(owing.clone()), &borrower, &account("GTHIRD"), &admin).err(),
        Some(ContractError::Unauthorized)
    );
    let closed = close_credit_line(false, Some(owing), &borrower, &admin, &admin).unwrap();
    assert!(closed.changed);
    assert_eq!(closed.line.status, CreditStatus::Closed);
    assert_eq!(closed.line.utilized_amount, 10);
    let again = close_credit_line(false, Some(closed.line), &borrower, &account("GTHIRD"), &admin).unwrap();
    assert!(!again.changed);
    let clean = close_credit_line(false, Some(opened("GA", 1_000)), &borrower, &borrower, &admin).unwrap();
    assert_eq!(clean.line.status, CreditStatus::Closed);
    assert_eq!(close_credit_line(false, None, &borrower, &admin, &admin).err(), Some(ContractError::CreditLineNotFound));
    assert_eq!(close_credit_line(true, None, &borrower, &admin, &admin).err(), Some(ContractError::Paused));
}

#[test]
fn batch_close_is_all_or_nothing() {
    let lines = vec![Some(drawn("GA", 1_000, 10)), Some(opened("GB", 1_000))];
    let closed = close_credit_lines_batch(false, lines).unwrap();
    assert_eq!(closed.len(), 2);
    assert!(closed.iter().all(|u| u.changed && u.line.status == CreditStatus::Closed));
    let with_missing = vec![Some(opened("GA", 1_000)), None];
    assert_eq!(close_credit_lines_batch(false, with_missing).err(), Some(ContractError::CreditLineNotFound));
    assert_eq!(close_credit_lines_batch(true, vec![]).err(), Some(ContractError::Paused));
}

#[test]
fn default_and_reinstate() {
    let line = drawn("GA", 1_000, 100);
    let update = default_line(false, Some(line)).unwrap();
    assert!(update.changed);
    let again = default_line(false, Some(update.line.clone())).unwrap();
    assert!(!again.changed);
    assert_eq!(reinstate(false, Some(update.line.clone()), CreditStatus::Suspended).err(), Some(ContractError::InvalidAmount));
    let restricted = reinstate(false, Some(update.line.clone()), CreditStatus::Restricted).unwrap();
    assert_eq!(restricted.status, CreditStatus::Restricted);
    let active = reinstate(false, Some(update.line), CreditStatus::Active).unwrap();
    assert_eq!(active.status, CreditStatus::Active);
    assert_eq!(active.suspension_ts, 0);
    assert_eq!(draw(Some(active.clone()), &account("GA"), 50, None).unwrap().utilized_amount, 150);
    assert_eq!(reinstate(false, Some(active), CreditStatus::Active).err(), Some(ContractError::CreditLineDefaulted));
    let closed = close_credit_line(false, Some(opened("GA", 10)), &account("GA"), &account("GA"), &account("GX")).unwrap();
    assert_eq!(default_line(false, Some(closed.line)).err(), Some(ContractError::CreditLineClosed));
}

#[test]
fn repayment_schedule_advances_by_whole_installments() {
    assert_eq!(set_repayment_schedule(false, true, 0, 100, 200).err(), Some(ContractError::InvalidAmount));
    assert_eq!(set_repayment_schedule(false, true, 10, 0, 200).err(), Some(ContractError::InvalidAmount));
    assert_eq!(set_repayment_schedule(false, false, 10, 100, 200).err(), Some(ContractError::CreditLineNotFound));
    assert_eq!(set_repayment_schedule(true, true, 10, 100, 200).err(), Some(ContractError::Paused));
    let s = set_repayment_schedule(false, true, 100_000, 100, 200).unwrap();
    assert_eq!(s, RepaymentSchedule { amount_per_period: 100_000, period_seconds: 100, next_due_ts: 200 });
    assert_eq!(advance_repayment_schedule_after_repay(Some(s), 50_000), None);
    assert_eq!(advance_repayment_schedule_after_repay(Some(s), 0), None);
    assert_eq!(advance_repayment_schedule_after_repay(None, 500_000), None);
    assert_eq!(advance_repayment_schedule_after_repay(Some(s), 100_000).unwrap().next_due_ts, 300);
    assert_eq!(advance_repayment_schedule_after_repay(Some(s), 450_000).unwrap().next_due_ts, 600);
    let far = RepaymentSchedule { amount_per_period: 1, period_seconds: u64::MAX, next_due_ts: 5 };
    assert_eq!(advance_repayment_schedule_after_repay(Some(far), 2).unwrap().next_due_ts, u64::MAX);
}

// ── settlement ───────────────────────────────────────────────────────────

#[test]
fn zero_recovery_panics() {
    let line = defaulted("GA", 10_000, 1_000);
    assert_eq!(settle(Some(line), 0, false, 10_000, 10_000).err(), Some(ContractError::InvalidAmount));
}

#[test]
fn full_liquidation_zeroes_debt_and_closes() {
    // Track the protocol totals through open, draw, default and settlement.
    let zero = ProtocolTotals { credit_line_count: 0, active_line_count: 0, total_utilized: 0, total_collateral: 0 };
    let line = opened("GA", 10_000);
    let totals = record_line_change(zero, None, &line).unwrap();
    let before_draw = snapshot(&line);
    let line = draw(Some(line), &account("GA"), 3_000, None).unwrap();
    let totals = record_line_change(totals, Some(before_draw), &line).unwrap();
    let before_default = snapshot(&line);
    let line = default_line(false, Some(line)).unwrap().line;
    let summary_before = record_line_change(totals, Some(before_default), &line).unwrap();

    let before = snapshot(&line);
    let after = settle(Some(line), 3_000, false, 10_000, 10_000).unwrap();
    assert_eq!(after.utilized_amount, 0);
    assert_eq!(after.status, CreditStatus::Closed);

    // With only one borrower, total_utilized should be 0.
    let summary_after = record_line_change(summary_before, Some(before), &after).unwrap();
    assert_eq!(summary_after.total_utilized, 0);

    // No fee was charged, so the treasury holds nothing.
    let treasury_balance = 0i128;
    let equity = summary_after.total_collateral + treasury_balance - summary_after.total_utilized;
    assert!(equity >= 0, "equity went negative: {}", equity);

    // total_utilized delta should equal borrower delta
    let borrower_delta = 0i128 - 3_000i128;
    let total_delta = summary_after.total_utilized - summary_before.total_utilized;
    assert_eq!(total_delta, borrower_delta, "total_utilized mismatch after full liquidation");
}

#[test]
fn partial_liquidation_reduces_debt_keeps_defaulted() {
    let line = defaulted("GA", 10_000, 2_000);
    let after = settle(Some(line), 500, false, 5_000, 10_000).unwrap();
    assert!(after.utilized_amount > 0);
    assert_eq!(after.status, CreditStatus::Defaulted);
}

#[test]
fn replay_using_same_settlement_id_panics() {
    let line = defaulted("GA", 10_000, 1_000);
    let after = settle(Some(line), 500, false, 10_000, 10_000).unwrap();
    // The (borrower, settlement_id) marker is now recorded.
    assert_eq!(settle(Some(after), 100, true, 10_000, 10_000).err(), Some(ContractError::AlreadyInitialized));
}

#[test]
fn close_factor_limits_recovery() {
    let line = defaulted("GA", 10_000, 2_000);
    assert_eq!(settle(Some(line.clone()), 1_001, false, 5_000, 10_000).err(), Some(ContractError::OverLimit));
    assert_eq!(settle(Some(line.clone()), 1_000, false, 5_000, 10_000).unwrap().utilized_amount, 1_000);
    assert_eq!(settle(Some(line.clone()), 10, false, 0, 10_000).err(), Some(ContractError::InvalidAmount));
    assert_eq!(settle(Some(line.clone()), 10, false, 10_001, 10_000).err(), Some(ContractError::InvalidAmount));
    assert_eq!(settle(Some(line), 10, false, 6_000, 5_000).err(), Some(ContractError::CloseFactorAboveMax));
    assert_eq!(
        settle(Some(drawn("GA", 10, 5)), 1, false, 10_000, 10_000).err(),
        Some(ContractError::CreditLineDefaulted)
    );
}

#[test]
fn settlement_without_close_factor() {
    let line = defaulted("GA", 10_000, 2_000);
    assert_eq!(settle_plain(true, Some(line.clone()), 10, false).err(), Some(ContractError::Paused));
    assert_eq!(settle_plain(false, Some(line.clone()), 2_001, false).err(), Some(ContractError::OverLimit));
    assert_eq!(settle_plain(false, Some(line.clone()), 5, true).err(), Some(ContractError::AlreadyInitialized));
    assert_eq!(settle_plain(false, None, 5, false).err(), Some(ContractError::CreditLineNotFound));
    let partial = settle_plain(false, Some(line.clone()), 500, false).unwrap();
    assert_eq!(partial.utilized_amount, 1_500);
    assert_eq!(partial.status, CreditStatus::Defaulted);
    let full = settle_plain(false, Some(line), 2_000, false).unwrap();
    assert_eq!(full.status, CreditStatus::Closed);
}

#[test]
fn oracle_price_circuit_breaker() {
    let cfg = OracleConfig { max_deviation_bps: 500, max_age_seconds: 60 };
    assert_eq!(settlement::validate_oracle_price(&cfg, None, 100, None, None), Err(ContractError::OraclePriceInvalid));
    assert_eq!(settlement::validate_oracle_price(&cfg, Some(0), 100, None, None), Err(ContractError::OraclePriceInvalid));
    assert_eq!(settlement::validate_oracle_price(&cfg, Some(1_000), 100, None, None), Ok((1_000, 100)));
    assert_eq!(settlement::validate_oracle_price(&cfg, Some(1_000), 200, Some(100), Some(1_000)), Err(ContractError::OraclePriceStale));
    assert_eq!(settlement::validate_oracle_price(&cfg, Some(1_051), 150, Some(100), Some(1_000)), Err(ContractError::OraclePriceDeviation));
    assert_eq!(settlement::validate_oracle_price(&cfg, Some(1_050), 160, Some(100), Some(1_000)), Ok((1_050, 160)));
    assert_eq!(settlement::validate_oracle_price(&cfg, Some(1_050), 160, Some(100), None), Ok((1_050, 160)));
    assert_eq!(settlement::validate_oracle_price(&cfg, Some(1_050), 50, Some(100), Some(1_000)), Ok((1_050, 50)));
}
