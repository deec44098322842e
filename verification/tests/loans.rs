use flash_liquidity_token::loans::OracleReading;
use flash_liquidity_token::state::AccountId;
use flash_liquidity_token::state::CustomError;
use flash_liquidity_token::state::Governance;
use flash_liquidity_token::state::Loan;
use flash_liquidity_token::state::RewardPool;
use flash_liquidity_token::state::Staker;
use flash_liquidity_token::borrow;
use flash_liquidity_token::liquidate;
use flash_liquidity_token::repay;

fn id(n: u64) -> AccountId {
    AccountId { w0: n, w1: 0, w2: 0, w3: 0 }
}

fn test_governance() -> Governance {
    Governance {
        admin: id(1),
        flash_loan_fee_bps: 30,
        liquidation_penalty_bps: 100,
        liquidation_grace_slots: 50,
        compound_rate_numerator: 5,
        compound_rate_denominator: 1000,
        max_borrow_ratio: 10_000,
        supported_collaterals: vec![id(7)],
    }
}

fn pool_with(total_staked: u64, active_loan_total: u64) -> RewardPool {
    RewardPool { total_staked, accrued_fees: 0, active_loan_total, update_counter: 0 }
}

fn staker_with(staked_amount: u64) -> Staker {
    Staker { staked_amount, collateral_mint: id(7), last_compound_slot: 0, lock_end_slot: 0 }
}

fn fresh_loan() -> Loan {
    Loan { borrower: id(0), amount: 0, start_slot: 0, due_slot: 0, active: false }
}

fn active_loan(amount: u64, due_slot: u64) -> Loan {
    Loan { borrower: id(2), amount, start_slot: 0, due_slot, active: true }
}

fn fresh_price(price: i64) -> OracleReading {
    OracleReading::Fresh { price }
}

#[test]
fn borrow_prices_the_fee_from_utilization() {
    let governance = test_governance();
    let mut pool = pool_with(10_000, 0);
    let staker = staker_with(10_000);
    let mut loan = fresh_loan();

    // utilization (0 + 1000) * 100 / 10_000 = 10 -> 15 bps;
    // a price of 100 leaves the fee unchanged (15 * 100 / 100);
    // flash fee 1000 * 15 / 10_000 = 1.
    let eff = borrow(&governance, &mut pool, &staker, &mut loan, id(2), 1000, 20, 100, 7,
        fresh_price(100)).unwrap();
    assert_eq!(eff.fee_bps, 15);
    assert_eq!(eff.flash_fee, 1);
    assert_eq!(eff.amount_to_borrower, 999);
    assert!(loan.active);
    assert_eq!(loan.borrower, id(2));
    assert_eq!(loan.amount, 1000);
    assert_eq!(loan.start_slot, 100);
    assert_eq!(loan.due_slot, 120);
    assert_eq!(pool.active_loan_total, 1000);
    assert_eq!(pool.accrued_fees, 1);
    assert_eq!(pool.update_counter, 1);
    assert_eq!(pool.total_staked, 10_000);
}

#[test]
fn borrow_uses_the_middle_and_top_fee_tiers() {
    let governance = test_governance();
    let staker = staker_with(100_000);

    // utilization 50 -> 20 bps.
    let mut pool = pool_with(10_000, 0);
    let mut loan = fresh_loan();
    let eff = borrow(&governance, &mut pool, &staker, &mut loan, id(2), 5000, 20, 100, 7,
        fresh_price(100)).unwrap();
    assert_eq!(eff.fee_bps, 20);
    assert_eq!(eff.flash_fee, 5000 * 20 / 10_000);

    // utilization 90 -> 50 bps.
    let mut pool = pool_with(10_000, 0);
    let mut loan = fresh_loan();
    let eff = borrow(&governance, &mut pool, &staker, &mut loan, id(2), 9000, 20, 100, 7,
        fresh_price(100)).unwrap();
    assert_eq!(eff.fee_bps, 50);
    assert_eq!(eff.flash_fee, 9000 * 50 / 10_000);
}

#[test]
fn borrow_rescales_the_fee_by_the_oracle_price() {
    let governance = test_governance();
    let mut pool = pool_with(10_000, 0);
    let staker = staker_with(10_000);
    let mut loan = fresh_loan();

    // A price of 2 scales the base fee up: 15 * 100 / 2 = 750 bps, so the fee
    // on 1000 is 75.
    let eff = borrow(&governance, &mut pool, &staker, &mut loan, id(2), 1000, 20, 100, 7,
        fresh_price(2)).unwrap();
    assert_eq!(eff.fee_bps, 750);
    assert_eq!(eff.flash_fee, 75);
    assert_eq!(eff.amount_to_borrower, 925);
    assert_eq!(pool.accrued_fees, 75);
}

#[test]
fn borrow_keeps_the_base_fee_on_a_non_positive_price() {
    let governance = test_governance();
    let staker = staker_with(10_000);

    let mut pool = pool_with(10_000, 0);
    let mut loan = fresh_loan();
    let eff = borrow(&governance, &mut pool, &staker, &mut loan, id(2), 1000, 20, 100, 7,
        fresh_price(0)).unwrap();
    assert_eq!(eff.fee_bps, 15);

    let mut pool = pool_with(10_000, 0);
    let mut loan = fresh_loan();
    let eff = borrow(&governance, &mut pool, &staker, &mut loan, id(2), 1000, 20, 100, 7,
        fresh_price(-5)).unwrap();
    assert_eq!(eff.fee_bps, 15);
}

#[test]
fn borrow_rejects_a_negative_timestamp() {
    let governance = test_governance();
    let mut pool = pool_with(10_000, 0);
    let staker = staker_with(10_000);
    let mut loan = fresh_loan();

    let r = borrow(&governance, &mut pool, &staker, &mut loan, id(2), 1000, 20, 100, -1,
        fresh_price(100));
    assert_eq!(r.unwrap_err(), CustomError::InvalidTimestamp);
    assert!(!loan.active);
    assert_eq!(pool.update_counter, 0);
}

#[test]
fn borrow_rejects_an_already_active_loan_record() {
    let governance = test_governance();
    let mut pool = pool_with(10_000, 0);
    let staker = staker_with(10_000);
    let mut loan = active_loan(500, 200);

    let r = borrow(&governance, &mut pool, &staker, &mut loan, id(2), 1000, 20, 100, 7,
        fresh_price(100));
    assert_eq!(r.unwrap_err(), CustomError::ReentrancyDetected);
}

#[test]
fn borrow_rejects_an_empty_pool() {
    let governance = test_governance();
    let mut pool = pool_with(0, 0);
    let staker = staker_with(10_000);
    let mut loan = fresh_loan();

    let r = borrow(&governance, &mut pool, &staker, &mut loan, id(2), 1000, 20, 100, 7,
        fresh_price(100));
    assert_eq!(r.unwrap_err(), CustomError::ArithmeticOverflow);
}

#[test]
fn borrow_rejects_a_missing_oracle_price() {
    let governance = test_governance();
    let mut pool = pool_with(10_000, 0);
    let staker = staker_with(10_000);
    let mut loan = fresh_loan();

    let r = borrow(&governance, &mut pool, &staker, &mut loan, id(2), 1000, 20, 100, 7,
        OracleReading::Unavailable);
    assert_eq!(r.unwrap_err(), CustomError::OraclePriceUnavailable);
}

#[test]
fn borrow_rejects_more_than_the_collateral_allows() {
    let mut governance = test_governance();
    governance.max_borrow_ratio = 5000;
    let mut pool = pool_with(10_000, 0);
    let staker = staker_with(1000);
    let mut loan = fresh_loan();

    // The limit is 1000 * 5000 / 10_000 = 500.
    let r = borrow(&governance, &mut pool, &staker, &mut loan, id(2), 501, 20, 100, 7,
        fresh_price(100));
    assert_eq!(r.unwrap_err(), CustomError::BorrowAmountExceedsCollateral);

    let eff = borrow(&governance, &mut pool, &staker, &mut loan, id(2), 500, 20, 100, 7,
        fresh_price(100)).unwrap();
    assert_eq!(eff.amount_to_borrower, 500 - 500 * 15 / 10_000);
}

#[test]
fn repay_on_time_charges_no_penalty() {
    let governance = test_governance();
    let mut pool = pool_with(10_000, 1000);
    let mut loan = active_loan(1000, 120);

    // Exactly at the due slot the penalty is zero.
    let eff = repay(&governance, &mut pool, &mut loan, 1000, 120).unwrap();
    assert_eq!(eff.penalty, 0);
    assert_eq!(eff.amount_to_vault, 1000);
    assert!(!loan.active);
    assert_eq!(pool.active_loan_total, 0);
    assert_eq!(pool.accrued_fees, 0);
    assert_eq!(pool.update_counter, 1);
}

#[test]
fn repay_overdue_charges_a_linear_penalty() {
    let governance = test_governance();
    let mut pool = pool_with(10_000, 1000);
    let mut loan = active_loan(1000, 120);

    // Ten slots overdue: 1000 * 10 * 100 / 10_000 = 100.
    let r = repay(&governance, &mut pool, &mut loan, 1099, 130);
    assert_eq!(r.unwrap_err(), CustomError::RepaymentFeeMissing);

    let eff = repay(&governance, &mut pool, &mut loan, 1100, 130).unwrap();
    assert_eq!(eff.penalty, 100);
    assert_eq!(pool.accrued_fees, 100);
    assert_eq!(pool.active_loan_total, 0);
}

#[test]
fn repay_takes_the_whole_supplied_amount() {
    let governance = test_governance();
    let mut pool = pool_with(10_000, 1000);
    let mut loan = active_loan(1000, 120);

    // The surplus above the required total is not refunded.
    let eff = repay(&governance, &mut pool, &mut loan, 2500, 120).unwrap();
    assert_eq!(eff.amount_to_vault, 2500);
    // Yet the pool sheds only the original principal.
    assert_eq!(pool.active_loan_total, 0);
}

#[test]
fn repay_rejects_an_inactive_loan() {
    let governance = test_governance();
    let mut pool = pool_with(10_000, 1000);
    let mut loan = Loan { active: false, ..active_loan(1000, 120) };

    let r = repay(&governance, &mut pool, &mut loan, 1000, 120);
    assert_eq!(r.unwrap_err(), CustomError::LoanNotActive);
}

#[test]
fn liquidate_waits_for_the_grace_period() {
    let governance = test_governance();
    let mut pool = pool_with(10_000, 1000);
    let mut loan = active_loan(1000, 120);

    // due 120 + grace 50 = 170: at the boundary liquidation is refused,
    // whatever the loan's amount.
    let r = liquidate(&governance, &mut pool, &mut loan, 170);
    assert_eq!(r.unwrap_err(), CustomError::LoanNotOverdue);
    assert!(loan.active);

    let mut big = active_loan(u64::MAX, 120);
    let r2 = liquidate(&governance, &mut pool, &mut big, 170);
    assert_eq!(r2.unwrap_err(), CustomError::LoanNotOverdue);
}

#[test]
fn liquidate_pays_the_penalty_to_the_liquidator() {
    let governance = test_governance();
    let mut pool = pool_with(10_000, 1000);
    let mut loan = active_loan(1000, 120);

    let eff = liquidate(&governance, &mut pool, &mut loan, 171).unwrap();
    // 1000 * 100 / 10_000 = 10 units of collateral leave the vault,
    // and the ledger still counts them as accrued fees.
    assert_eq!(eff.penalty_to_liquidator, 10);
    assert!(!loan.active);
    assert_eq!(pool.active_loan_total, 0);
    assert_eq!(pool.accrued_fees, 10);
    assert_eq!(pool.update_counter, 1);
}

#[test]
fn liquidate_rejects_a_grace_window_past_the_clock_range() {
    let governance = test_governance();
    let mut pool = pool_with(10_000, 1000);
    let mut loan = active_loan(1000, u64::MAX - 10);

    let r = liquidate(&governance, &mut pool, &mut loan, u64::MAX);
    assert_eq!(r.unwrap_err(), CustomError::ArithmeticOverflow);
}
