//! The loan engine: borrow, repay and liquidate over per-loan records,
//! consulting the [`RewardPool`] ledger, the governance parameters and
//! an injected oracle reading.
//!
//! As in the staking engine, each operation is specified by an
//! allowed-predicate, a result function and an error function, and the
//! executable function is proved to implement exactly that transition.

use vstd::prelude::*;

use crate::fees::base_fee_bps;
use crate::fees::flash_fee;
use crate::fees::lemma_adjusted_fee_bounded;
use crate::fees::lemma_base_fee_bounded;
use crate::fees::lemma_flash_fee_le_amount;
use crate::fees::liquidation_penalty;
use crate::fees::oracle_adjusted_fee_bps;
use crate::fees::repay_penalty;
use crate::fees::utilization_after;
use crate::fees::fee_bps_for_utilization;
use crate::state::AccountId;
use crate::state::BPS_SCALE;
use crate::state::CustomError;
use crate::state::Governance;
use crate::state::Loan;
use crate::state::ORACLE_FEE_SCALE;
use crate::state::RewardPool;
use crate::state::Staker;
use crate::state::UTILIZATION_SCALE;

verus! {

/// What the price oracle answered.  The host queries the oracle with a
/// 60-second staleness bound against the wall clock and hands the
/// outcome in; the engine itself never reaches out.
#[derive(Clone, Copy, PartialEq, Eq, Structural, Debug)]
pub enum OracleReading {
    /// No price could be read, or the freshest one is stale.
    Unavailable,
    /// A fresh price, at the oracle's own scale.  A non-positive
    /// reading leaves the fee unadjusted.
    Fresh { price: i64 },
}

/// The custody effects of a successful borrow: the principal less the
/// fee leaves the vault for the borrower, after which the host invokes
/// the post-borrow callback with the borrower's identity and
/// destination account.
#[derive(Clone, Copy, PartialEq, Eq, Structural, Debug)]
pub struct BorrowEffect {
    /// The fee rate actually charged, after the oracle adjustment.
    pub fee_bps: u64,
    /// The fee withheld from the principal, credited to the pool.
    pub flash_fee: u64,
    /// What the vault pays out to the borrower.
    pub amount_to_borrower: u64,
}

/// The custody effect of a successful repayment: the entire supplied
/// amount — surplus included, no refund — moves to the vault, and the
/// loan record's storage is reclaimed to the borrower.
#[derive(Clone, Copy, PartialEq, Eq, Structural, Debug)]
pub struct RepayEffect {
    /// What the borrower transfers to the vault: all of `amount`.
    pub amount_to_vault: u64,
    /// The overdue penalty contained in the required total.
    pub penalty: u64,
}

/// The custody effect of a successful liquidation: the penalty leaves
/// the vault to the liquidator as an incentive.  The loan record's
/// storage is not reclaimed.
#[derive(Clone, Copy, PartialEq, Eq, Structural, Debug)]
pub struct LiquidateEffect {
    /// Collateral paid from the vault to the liquidator.
    pub penalty_to_liquidator: u64,
}

/// The fee rate of a borrow of `amount` against `pool`: the tiered
/// base fee of the resulting utilization, adjusted by the oracle price.
pub open spec fn borrow_fee_bps(pool: RewardPool, amount: u64, price: i64) -> int
    recommends
        pool.total_staked > 0,
{
    oracle_adjusted_fee_bps(
        base_fee_bps(utilization_after(pool.active_loan_total, amount, pool.total_staked)),
        price,
    )
}

/// When a borrow goes through: a non-negative wall clock, a fresh loan
/// record, a non-empty pool, a fresh oracle price, the collateral
/// bound, and every fixed-point step within 64 bits.
pub open spec fn borrow_allowed(
    governance: Governance,
    pool: RewardPool,
    staker: Staker,
    loan: Loan,
    amount: u64,
    loan_duration: u64,
    now_slot: u64,
    now_time: i64,
    oracle: OracleReading,
) -> bool {
    let fee_rate = borrow_fee_bps(pool, amount, oracle->price);
    let fee = flash_fee(amount, fee_rate);
    &&& now_time >= 0
    &&& !loan.active
    &&& pool.active_loan_total + amount <= u64::MAX
    &&& (pool.active_loan_total + amount) * UTILIZATION_SCALE <= u64::MAX
    &&& pool.total_staked > 0
    &&& oracle is Fresh
    &&& amount * fee_rate <= u64::MAX
    &&& staker.staked_amount * governance.max_borrow_ratio <= u64::MAX
    &&& amount <= staker.staked_amount * governance.max_borrow_ratio / (BPS_SCALE as int)
    &&& now_slot + loan_duration <= u64::MAX
    &&& pool.update_counter + 1 <= u64::MAX
    &&& pool.accrued_fees + fee <= u64::MAX
}

/// The records and effect a successful borrow produces.
pub open spec fn borrow_result(
    pool: RewardPool,
    borrower: AccountId,
    amount: u64,
    loan_duration: u64,
    now_slot: u64,
    price: i64,
) -> (RewardPool, Loan, BorrowEffect) {
    let fee_rate = borrow_fee_bps(pool, amount, price);
    let fee = flash_fee(amount, fee_rate) as u64;
    (
        RewardPool {
            active_loan_total: (pool.active_loan_total + amount) as u64,
            accrued_fees: (pool.accrued_fees + fee) as u64,
            update_counter: (pool.update_counter + 1) as u64,
            ..pool
        },
        Loan {
            borrower,
            amount,
            start_slot: now_slot,
            due_slot: (now_slot + loan_duration) as u64,
            active: true,
        },
        BorrowEffect {
            fee_bps: fee_rate as u64,
            flash_fee: fee,
            amount_to_borrower: (amount - fee) as u64,
        },
    )
}

/// The error a refused borrow aborts with, in the order the checks are
/// made.
pub open spec fn borrow_error(
    governance: Governance,
    pool: RewardPool,
    staker: Staker,
    loan: Loan,
    amount: u64,
    now_time: i64,
    oracle: OracleReading,
) -> CustomError {
    if now_time < 0 {
        CustomError::InvalidTimestamp
    } else if loan.active {
        CustomError::ReentrancyDetected
    } else if pool.active_loan_total + amount > u64::MAX
        || (pool.active_loan_total + amount) * UTILIZATION_SCALE > u64::MAX
        || pool.total_staked == 0 {
        CustomError::ArithmeticOverflow
    } else if oracle is Unavailable {
        CustomError::OraclePriceUnavailable
    } else if amount * borrow_fee_bps(pool, amount, oracle->price) > u64::MAX
        || staker.staked_amount * governance.max_borrow_ratio > u64::MAX {
        CustomError::ArithmeticOverflow
    } else if amount > staker.staked_amount * governance.max_borrow_ratio / (BPS_SCALE as int) {
        CustomError::BorrowAmountExceedsCollateral
    } else {
        CustomError::ArithmeticOverflow
    }
}

/// Borrow `amount` against the staked collateral until
/// `current_slot + loan_duration`.  The fee is tiered by utilization,
/// adjusted by the oracle price, withheld from the payout and credited
/// to the pool; the loan record is written over `loan`.  On success
/// the host pays the borrower and invokes the post-borrow callback.
pub fn borrow(
    governance: &Governance,
    reward_pool: &mut RewardPool,
    staker: &Staker,
    loan: &mut Loan,
    borrower: AccountId,
    amount: u64,
    loan_duration: u64,
    current_slot: u64,
    current_timestamp: i64,
    oracle: OracleReading,
) -> (r: Result<BorrowEffect, CustomError>)
    ensures
        r is Ok <==> borrow_allowed(
            *governance,
            *old(reward_pool),
            *staker,
            *old(loan),
            amount,
            loan_duration,
            current_slot,
            current_timestamp,
            oracle,
        ),
        r matches Ok(eff) ==> ({
            let (pool1, loan1, eff1) = borrow_result(
                *old(reward_pool),
                borrower,
                amount,
                loan_duration,
                current_slot,
                oracle->price,
            );
            &&& *final(reward_pool) == pool1
            &&& *final(loan) == loan1
            &&& eff == eff1
        }),
        r matches Err(e) ==> {
            &&& *final(reward_pool) == *old(reward_pool)
            &&& *final(loan) == *old(loan)
            &&& e == borrow_error(
                *governance,
                *old(reward_pool),
                *staker,
                *old(loan),
                amount,
                current_timestamp,
                oracle,
            )
        },
{
    if current_timestamp < 0 {
        return Err(CustomError::InvalidTimestamp);
    }
    if loan.active {
        return Err(CustomError::ReentrancyDetected);
    }
    let loaned = match reward_pool.active_loan_total.checked_add(amount) {
        Some(v) => v,
        None => {
            return Err(CustomError::ArithmeticOverflow);
        },
    };
    let scaled_loaned = match loaned.checked_mul(UTILIZATION_SCALE) {
        Some(v) => v,
        None => {
            return Err(CustomError::ArithmeticOverflow);
        },
    };
    let utilization = match scaled_loaned.checked_div(reward_pool.total_staked) {
        Some(v) => v,
        None => {
            return Err(CustomError::ArithmeticOverflow);
        },
    };
    let base_bps = fee_bps_for_utilization(utilization);
    let price = match oracle {
        OracleReading::Fresh { price } => price,
        OracleReading::Unavailable => {
            return Err(CustomError::OraclePriceUnavailable);
        },
    };
    proof {
        lemma_base_fee_bounded(utilization as int);
    }
    let fee_bps: u64 = if price > 0 {
        (base_bps * ORACLE_FEE_SCALE) / (price as u64)
    } else {
        base_bps
    };
    proof {
        lemma_adjusted_fee_bounded(base_fee_bps(utilization as int), price);
        assert(fee_bps == borrow_fee_bps(*old(reward_pool), amount, price));
    }
    let fee = match amount.checked_mul(fee_bps) {
        Some(v) => v / BPS_SCALE,
        None => {
            return Err(CustomError::ArithmeticOverflow);
        },
    };
    proof {
        lemma_flash_fee_le_amount(amount, fee_bps as int);
    }
    let amount_after_fee = amount - fee;
    let limit = match staker.staked_amount.checked_mul(governance.max_borrow_ratio) {
        Some(v) => v / BPS_SCALE,
        None => {
            return Err(CustomError::ArithmeticOverflow);
        },
    };
    if amount > limit {
        return Err(CustomError::BorrowAmountExceedsCollateral);
    }
    let due_slot = match current_slot.checked_add(loan_duration) {
        Some(v) => v,
        None => {
            return Err(CustomError::ArithmeticOverflow);
        },
    };
    let new_counter = match reward_pool.update_counter.checked_add(1) {
        Some(v) => v,
        None => {
            return Err(CustomError::ArithmeticOverflow);
        },
    };
    let new_fees = match reward_pool.accrued_fees.checked_add(fee) {
        Some(v) => v,
        None => {
            return Err(CustomError::ArithmeticOverflow);
        },
    };
    loan.borrower = borrower;
    loan.amount = amount;
    loan.start_slot = current_slot;
    loan.due_slot = due_slot;
    loan.active = true;
    reward_pool.active_loan_total = loaned;
    reward_pool.update_counter = new_counter;
    reward_pool.accrued_fees = new_fees;
    Ok(BorrowEffect { fee_bps, flash_fee: fee, amount_to_borrower: amount_after_fee })
}

/// When a repayment goes through: the loan is active, the supplied
/// amount covers principal plus penalty, and every fixed-point step
/// fits in 64 bits.
pub open spec fn repay_allowed(
    governance: Governance,
    pool: RewardPool,
    loan: Loan,
    amount: u64,
    now_slot: u64,
) -> bool {
    let penalty = repay_penalty(loan.amount, loan.due_slot, now_slot, governance.liquidation_penalty_bps);
    &&& loan.active
    &&& (now_slot > loan.due_slot ==> {
        &&& loan.amount * (now_slot - loan.due_slot) <= u64::MAX
        &&& loan.amount * (now_slot - loan.due_slot) * governance.liquidation_penalty_bps
            <= u64::MAX
    })
    &&& loan.amount + penalty <= u64::MAX
    &&& amount >= loan.amount + penalty
    &&& pool.active_loan_total >= loan.amount
    &&& (penalty > 0 ==> pool.accrued_fees + penalty <= u64::MAX)
    &&& pool.update_counter + 1 <= u64::MAX
}

/// The records and effect a successful repayment produces.  The pool
/// sheds the original principal — not the amount transferred — and
/// accrues the penalty.
pub open spec fn repay_result(
    governance: Governance,
    pool: RewardPool,
    loan: Loan,
    amount: u64,
    now_slot: u64,
) -> (RewardPool, Loan, RepayEffect)
    recommends
        repay_allowed(governance, pool, loan, amount, now_slot),
{
    let penalty = repay_penalty(
        loan.amount,
        loan.due_slot,
        now_slot,
        governance.liquidation_penalty_bps,
    ) as u64;
    (
        RewardPool {
            active_loan_total: (pool.active_loan_total - loan.amount) as u64,
            accrued_fees: (pool.accrued_fees + penalty) as u64,
            update_counter: (pool.update_counter + 1) as u64,
            ..pool
        },
        Loan { active: false, ..loan },
        RepayEffect { amount_to_vault: amount, penalty },
    )
}

/// The error a refused repayment aborts with, in check order.
pub open spec fn repay_error(
    governance: Governance,
    pool: RewardPool,
    loan: Loan,
    amount: u64,
    now_slot: u64,
) -> CustomError {
    let penalty = repay_penalty(loan.amount, loan.due_slot, now_slot, governance.liquidation_penalty_bps);
    if !loan.active {
        CustomError::LoanNotActive
    } else if now_slot > loan.due_slot && (loan.amount * (now_slot - loan.due_slot) > u64::MAX
        || loan.amount * (now_slot - loan.due_slot) * governance.liquidation_penalty_bps
            > u64::MAX) {
        CustomError::ArithmeticOverflow
    } else if loan.amount + penalty > u64::MAX {
        CustomError::ArithmeticOverflow
    } else if amount < loan.amount + penalty {
        CustomError::RepaymentFeeMissing
    } else {
        CustomError::ArithmeticOverflow
    }
}

/// Repay an active loan with `amount`, which must cover the principal
/// plus the overdue penalty; the host transfers the whole supplied
/// amount to the vault and reclaims the loan record's storage.
pub fn repay(
    governance: &Governance,
    reward_pool: &mut RewardPool,
    loan: &mut Loan,
    amount: u64,
    current_slot: u64,
) -> (r: Result<RepayEffect, CustomError>)
    ensures
        r is Ok <==> repay_allowed(*governance, *old(reward_pool), *old(loan), amount, current_slot),
        r matches Ok(eff) ==> ({
            let (pool1, loan1, eff1) = repay_result(
                *governance,
                *old(reward_pool),
                *old(loan),
                amount,
                current_slot,
            );
            &&& *final(reward_pool) == pool1
            &&& *final(loan) == loan1
            &&& eff == eff1
        }),
        r matches Err(e) ==> {
            &&& *final(reward_pool) == *old(reward_pool)
            &&& *final(loan) == *old(loan)
            &&& e == repay_error(*governance, *old(reward_pool), *old(loan), amount, current_slot)
        },
{
    if !loan.active {
        return Err(CustomError::LoanNotActive);
    }
    let penalty: u64 = if current_slot > loan.due_slot {
        let overdue = current_slot - loan.due_slot;
        let grown = match loan.amount.checked_mul(overdue) {
            Some(v) => v,
            None => {
                return Err(CustomError::ArithmeticOverflow);
            },
        };
        match grown.checked_mul(governance.liquidation_penalty_bps) {
            Some(v) => v / BPS_SCALE,
            None => {
                return Err(CustomError::ArithmeticOverflow);
            },
        }
    } else {
        0
    };
    let total_required = match loan.amount.checked_add(penalty) {
        Some(v) => v,
        None => {
            return Err(CustomError::ArithmeticOverflow);
        },
    };
    if amount < total_required {
        return Err(CustomError::RepaymentFeeMissing);
    }
    let new_loan_total = match reward_pool.active_loan_total.checked_sub(loan.amount) {
        Some(v) => v,
        None => {
            return Err(CustomError::ArithmeticOverflow);
        },
    };
    let new_fees = if penalty > 0 {
        match reward_pool.accrued_fees.checked_add(penalty) {
            Some(v) => v,
            None => {
                return Err(CustomError::ArithmeticOverflow);
            },
        }
    } else {
        reward_pool.accrued_fees
    };
    let new_counter = match reward_pool.update_counter.checked_add(1) {
        Some(v) => v,
        None => {
            return Err(CustomError::ArithmeticOverflow);
        },
    };
    loan.active = false;
    reward_pool.active_loan_total = new_loan_total;
    reward_pool.accrued_fees = new_fees;
    reward_pool.update_counter = new_counter;
    Ok(RepayEffect { amount_to_vault: amount, penalty })
}

/// When a liquidation goes through: the loan is past its due slot plus
/// the grace period, and every fixed-point step fits in 64 bits.  The
/// active flag is not consulted.
pub open spec fn liquidate_allowed(
    governance: Governance,
    pool: RewardPool,
    loan: Loan,
    now_slot: u64,
) -> bool {
    let penalty = liquidation_penalty(loan.amount, governance.liquidation_penalty_bps);
    &&& loan.due_slot + governance.liquidation_grace_slots <= u64::MAX
    &&& now_slot > loan.due_slot + governance.liquidation_grace_slots
    &&& loan.amount * governance.liquidation_penalty_bps <= u64::MAX
    &&& pool.active_loan_total >= loan.amount
    &&& pool.accrued_fees + penalty <= u64::MAX
    &&& pool.update_counter + 1 <= u64::MAX
}

/// The records and effect a successful liquidation produces.  The
/// penalty leaves custody to the liquidator and is nonetheless added
/// to the pool's accrued fees, as the ledger has always counted it.
pub open spec fn liquidate_result(
    governance: Governance,
    pool: RewardPool,
    loan: Loan,
    now_slot: u64,
) -> (RewardPool, Loan, LiquidateEffect)
    recommends
        liquidate_allowed(governance, pool, loan, now_slot),
{
    let penalty = liquidation_penalty(loan.amount, governance.liquidation_penalty_bps) as u64;
    (
        RewardPool {
            active_loan_total: (pool.active_loan_total - loan.amount) as u64,
            accrued_fees: (pool.accrued_fees + penalty) as u64,
            update_counter: (pool.update_counter + 1) as u64,
            ..pool
        },
        Loan { active: false, ..loan },
        LiquidateEffect { penalty_to_liquidator: penalty },
    )
}

/// The error a refused liquidation aborts with, in check order.
pub open spec fn liquidate_error(
    governance: Governance,
    pool: RewardPool,
    loan: Loan,
    now_slot: u64,
) -> CustomError {
    if loan.due_slot + governance.liquidation_grace_slots > u64::MAX {
        CustomError::ArithmeticOverflow
    } else if now_slot <= loan.due_slot + governance.liquidation_grace_slots {
        CustomError::LoanNotOverdue
    } else {
        CustomError::ArithmeticOverflow
    }
}

/// Liquidate a loan that is overdue past the grace period: the loan is
/// closed, the pool sheds its principal, and the host pays the penalty
/// collateral from the vault to the liquidator.
pub fn liquidate(
    governance: &Governance,
    reward_pool: &mut RewardPool,
    loan: &mut Loan,
    current_slot: u64,
) -> (r: Result<LiquidateEffect, CustomError>)
    ensures
        r is Ok <==> liquidate_allowed(*governance, *old(reward_pool), *old(loan), current_slot),
        r matches Ok(eff) ==> ({
            let (pool1, loan1, eff1) = liquidate_result(
                *governance,
                *old(reward_pool),
                *old(loan),
                current_slot,
            );
            &&& *final(reward_pool) == pool1
            &&& *final(loan) == loan1
            &&& eff == eff1
        }),
        r matches Err(e) ==> {
            &&& *final(reward_pool) == *old(reward_pool)
            &&& *final(loan) == *old(loan)
            &&& e == liquidate_error(*governance, *old(reward_pool), *old(loan), current_slot)
        },
{
    let deadline = match loan.due_slot.checked_add(governance.liquidation_grace_slots) {
        Some(v) => v,
        None => {
            return Err(CustomError::ArithmeticOverflow);
        },
    };
    if current_slot <= deadline {
        return Err(CustomError::LoanNotOverdue);
    }
    let penalty = match loan.amount.checked_mul(governance.liquidation_penalty_bps) {
        Some(v) => v / BPS_SCALE,
        None => {
            return Err(CustomError::ArithmeticOverflow);
        },
    };
    let new_loan_total = match reward_pool.active_loan_total.checked_sub(loan.amount) {
        Some(v) => v,
        None => {
            return Err(CustomError::ArithmeticOverflow);
        },
    };
    let new_fees = match reward_pool.accrued_fees.checked_add(penalty) {
        Some(v) => v,
        None => {
            return Err(CustomError::ArithmeticOverflow);
        },
    };
    let new_counter = match reward_pool.update_counter.checked_add(1) {
        Some(v) => v,
        None => {
            return Err(CustomError::ArithmeticOverflow);
        },
    };
    loan.active = false;
    reward_pool.active_loan_total = new_loan_total;
    reward_pool.accrued_fees = new_fees;
    reward_pool.update_counter = new_counter;
    Ok(LiquidateEffect { penalty_to_liquidator: penalty })
}

/// The overdue penalty is exactly zero at the due slot, and past it
/// exactly principal * overdue-slots * penalty-bps / 10_000.
pub proof fn lemma_repay_penalty_formula(
    principal: u64,
    due_slot: u64,
    overdue: u64,
    penalty_bps: u64,
)
    requires
        due_slot + overdue <= u64::MAX,
    ensures
        repay_penalty(principal, due_slot, (due_slot + overdue) as u64, penalty_bps) == if overdue
            == 0 {
            0int
        } else {
            principal * overdue * penalty_bps / (BPS_SCALE as int)
        },
{
}

/// A repayment below principal plus penalty is never accepted.
pub proof fn lemma_repay_requires_full_amount(
    governance: Governance,
    pool: RewardPool,
    loan: Loan,
    amount: u64,
    now_slot: u64,
)
    requires
        amount < loan.amount + repay_penalty(
            loan.amount,
            loan.due_slot,
            now_slot,
            governance.liquidation_penalty_bps,
        ),
    ensures
        !repay_allowed(governance, pool, loan, amount, now_slot),
{
}

/// A liquidation is refused whenever the clock is at or before the due
/// slot plus the grace period, whatever the loan's amount.
pub proof fn lemma_liquidate_needs_overdue(
    governance: Governance,
    pool: RewardPool,
    loan: Loan,
    now_slot: u64,
)
    requires
        now_slot <= loan.due_slot + governance.liquidation_grace_slots,
    ensures
        !liquidate_allowed(governance, pool, loan, now_slot),
{
}

} // verus!
