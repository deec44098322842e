//! The fixed-point pricing arithmetic of the protocol: early-adopter
//! staking credits, the utilization-tiered flash-loan fee and its
//! oracle adjustment, overdue-repayment penalties, liquidation
//! penalties and compounded rewards.
//!
//! Everything here is stated over unbounded integers; the operations
//! that apply these formulas check the `u64` bounds themselves.

use vstd::prelude::*;

use crate::state::BOOST_DENOMINATOR;
use crate::state::BOOST_NUMERATOR;
use crate::state::BOOST_THRESHOLD;
use crate::state::BPS_SCALE;
use crate::state::ORACLE_FEE_SCALE;
use crate::state::UTILIZATION_SCALE;

verus! {

/// Whether a stake is boosted: the pool's pre-update total stake is
/// below the early-adopter threshold.
pub open spec fn boost_applies(total_staked: u64) -> bool {
    total_staked < BOOST_THRESHOLD
}

/// The ledger credit of a stake: the raw amount, boosted by 150/100
/// (with integer truncation) while the pool is below the threshold.
pub open spec fn ledger_credit(total_staked: u64, amount: u64) -> int {
    if boost_applies(total_staked) {
        amount * BOOST_NUMERATOR / (BOOST_DENOMINATOR as int)
    } else {
        amount as int
    }
}

/// Pool utilization, in percent, after a further `amount` is lent:
/// (active_loan_total + amount) * 100 / total_staked, truncating.
pub open spec fn utilization_after(active_loan_total: u64, amount: u64, total_staked: u64) -> int
    recommends
        total_staked > 0,
{
    (active_loan_total + amount) * UTILIZATION_SCALE / (total_staked as int)
}

/// The tiered base flash-loan fee, in basis points, as a step function
/// of utilization in percent.
pub open spec fn base_fee_bps(utilization: int) -> int {
    if utilization < 20 {
        15
    } else if utilization < 80 {
        20
    } else {
        50
    }
}

/// The oracle adjustment: a positive price divides the base fee
/// (scaled by 100, truncating); a non-positive price leaves it alone.
pub open spec fn oracle_adjusted_fee_bps(base_bps: int, price: i64) -> int {
    if price > 0 {
        base_bps * ORACLE_FEE_SCALE / (price as int)
    } else {
        base_bps
    }
}

/// The fee charged on a borrow of `amount` at `fee_bps` basis points.
pub open spec fn flash_fee(amount: u64, fee_bps: int) -> int {
    amount * fee_bps / (BPS_SCALE as int)
}

/// The overdue-repayment penalty: zero up to the due slot, and past it
/// linear in both the principal and the number of overdue slots.
pub open spec fn repay_penalty(principal: u64, due_slot: u64, now_slot: u64, penalty_bps: u64) -> int {
    if now_slot > due_slot {
        principal * (now_slot - due_slot) * penalty_bps / (BPS_SCALE as int)
    } else {
        0
    }
}

/// The collateral paid to a liquidator as an incentive.
pub open spec fn liquidation_penalty(principal: u64, penalty_bps: u64) -> int {
    principal * penalty_bps / (BPS_SCALE as int)
}

/// The reward added by compounding: staked * rate * elapsed slots,
/// truncating at the rate's denominator.
pub open spec fn compound_reward(staked: u64, rate_numerator: u64, rate_denominator: u64, elapsed: u64) -> int
    recommends
        rate_denominator > 0,
{
    staked * rate_numerator * elapsed / (rate_denominator as int)
}

/// The tiered base fee, executable: 15 bps below 20 % utilization,
/// 20 bps below 80 %, 50 bps at or above 80 %.
pub fn fee_bps_for_utilization(utilization: u64) -> (r: u64)
    ensures
        r == base_fee_bps(utilization as int),
{
    if utilization < 20 {
        15
    } else if utilization < 80 {
        20
    } else {
        50
    }
}

/// The base fee never leaves its three tiers.
pub proof fn lemma_base_fee_bounded(utilization: int)
    ensures
        15 <= base_fee_bps(utilization) <= 50,
{
}

/// An oracle-adjusted fee stays at or below base * 100: a positive
/// price divides the scaled base by at least one.
pub proof fn lemma_adjusted_fee_bounded(base_bps: int, price: i64)
    requires
        0 <= base_bps,
    ensures
        0 <= oracle_adjusted_fee_bps(base_bps, price) <= base_bps * ORACLE_FEE_SCALE,
{
    if price > 0 {
        let scaled = base_bps * ORACLE_FEE_SCALE;
        vstd::arithmetic::div_mod::lemma_div_is_ordered_by_denominator(scaled, 1, price as int);
        vstd::arithmetic::div_mod::lemma_div_basics(scaled);
        vstd::arithmetic::div_mod::lemma_div_pos_is_pos(scaled, price as int);
    } else {
        assert(base_bps <= base_bps * ORACLE_FEE_SCALE) by (nonlinear_arith)
            requires
                0 <= base_bps,
        ;
    }
}

/// A fee of at most 10_000 basis points never exceeds the amount it is
/// charged on.
pub proof fn lemma_flash_fee_le_amount(amount: u64, fee_bps: int)
    requires
        0 <= fee_bps <= BPS_SCALE,
    ensures
        0 <= flash_fee(amount, fee_bps) <= amount,
{
    vstd::arithmetic::mul::lemma_mul_inequality(fee_bps, BPS_SCALE as int, amount as int);
    vstd::arithmetic::div_mod::lemma_div_is_ordered(
        amount * fee_bps,
        amount * (BPS_SCALE as int),
        BPS_SCALE as int,
    );
    vstd::arithmetic::div_mod::lemma_div_by_multiple(amount as int, BPS_SCALE as int);
    vstd::arithmetic::div_mod::lemma_div_pos_is_pos(amount * fee_bps, BPS_SCALE as int);
    vstd::arithmetic::mul::lemma_mul_nonnegative(amount as int, fee_bps);
}

} // verus!
