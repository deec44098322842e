//! The staking engine: stake, compound-rewards and unstake over a
//! per-(owner, collateral kind) [`Staker`] record and the global
//! [`RewardPool`] ledger.
//!
//! Each operation is specified by three spec functions — when it is
//! allowed, what the records become, and which error it aborts with —
//! and the executable function is proved to implement exactly that
//! transition, leaving every record unchanged on failure.

use vstd::prelude::*;

use crate::fees::boost_applies;
use crate::fees::compound_reward;
use crate::fees::ledger_credit;
use crate::governance::supports_collateral;
use crate::state::AccountId;
use crate::state::BOOST_DENOMINATOR;
use crate::state::BOOST_NUMERATOR;
use crate::state::CustomError;
use crate::state::Governance;
use crate::state::RewardPool;
use crate::state::Staker;

verus! {

/// The custody effects of a successful stake: the raw amount moves
/// from the staker to the vault, and claim tokens are minted for the
/// raw amount — the ledger alone records the (possibly boosted) credit.
#[derive(Clone, Copy, PartialEq, Eq, Structural, Debug)]
pub struct StakeEffect {
    /// Collateral to transfer from the staker to the pool's vault.
    pub collateral_to_vault: u64,
    /// Claim tokens to mint to the staker (always the raw amount).
    pub claim_minted: u64,
    /// The credit added to the staking ledger.
    pub ledger_credit: u64,
}

/// The custody effect of a successful unstake.
#[derive(Clone, Copy, PartialEq, Eq, Structural, Debug)]
pub struct UnstakeEffect {
    /// Collateral to transfer from the pool's vault back to the staker.
    pub collateral_to_user: u64,
}

/// When a stake goes through: the offered token kind is the declared
/// collateral kind, that kind is approved, and every ledger addition
/// fits in 64 bits.
pub open spec fn stake_allowed(
    governance: Governance,
    pool: RewardPool,
    staker: Staker,
    offered_mint: AccountId,
    collateral_mint: AccountId,
    amount: u64,
    lock_duration: u64,
    now_slot: u64,
) -> bool {
    let credit = ledger_credit(pool.total_staked, amount);
    &&& offered_mint == collateral_mint
    &&& governance.supported_collaterals@.contains(collateral_mint)
    &&& (boost_applies(pool.total_staked) ==> amount * BOOST_NUMERATOR <= u64::MAX)
    &&& staker.staked_amount + credit <= u64::MAX
    &&& now_slot + lock_duration <= u64::MAX
    &&& pool.total_staked + credit <= u64::MAX
    &&& pool.update_counter + 1 <= u64::MAX
}

/// The records and effect a successful stake produces.
pub open spec fn stake_result(
    pool: RewardPool,
    staker: Staker,
    collateral_mint: AccountId,
    amount: u64,
    lock_duration: u64,
    now_slot: u64,
) -> (RewardPool, Staker, StakeEffect)
    recommends
        boost_applies(pool.total_staked) ==> amount * BOOST_NUMERATOR <= u64::MAX,
{
    let credit = ledger_credit(pool.total_staked, amount) as u64;
    (
        RewardPool {
            total_staked: (pool.total_staked + credit) as u64,
            update_counter: (pool.update_counter + 1) as u64,
            ..pool
        },
        Staker {
            staked_amount: (staker.staked_amount + credit) as u64,
            collateral_mint,
            last_compound_slot: now_slot,
            lock_end_slot: (now_slot + lock_duration) as u64,
        },
        StakeEffect { collateral_to_vault: amount, claim_minted: amount, ledger_credit: credit },
    )
}

/// The error a refused stake aborts with, in the order the checks are
/// made: kind mismatch, unapproved kind, then arithmetic overflow.
pub open spec fn stake_error(
    governance: Governance,
    offered_mint: AccountId,
    collateral_mint: AccountId,
) -> CustomError {
    if offered_mint != collateral_mint {
        CustomError::InvalidCollateralMint
    } else if !governance.supported_collaterals@.contains(collateral_mint) {
        CustomError::UnsupportedCollateral
    } else {
        CustomError::ArithmeticOverflow
    }
}

/// Stake `amount` units of collateral for at least `lock_duration`
/// slots.  On success the host transfers the raw amount into the vault
/// and mints claim tokens for it, while the staking ledger is credited
/// with the early-adopter-boosted amount.
pub fn stake(
    governance: &Governance,
    reward_pool: &mut RewardPool,
    staker: &mut Staker,
    offered_mint: AccountId,
    collateral_mint: AccountId,
    amount: u64,
    lock_duration: u64,
    current_slot: u64,
) -> (r: Result<StakeEffect, CustomError>)
    ensures
        r is Ok <==> stake_allowed(
            *governance,
            *old(reward_pool),
            *old(staker),
            offered_mint,
            collateral_mint,
            amount,
            lock_duration,
            current_slot,
        ),
        r matches Ok(eff) ==> ({
            let (pool1, staker1, eff1) = stake_result(
                *old(reward_pool),
                *old(staker),
                collateral_mint,
                amount,
                lock_duration,
                current_slot,
            );
            &&& *final(reward_pool) == pool1
            &&& *final(staker) == staker1
            &&& eff == eff1
        }),
        r matches Err(e) ==> {
            &&& *final(reward_pool) == *old(reward_pool)
            &&& *final(staker) == *old(staker)
            &&& e == stake_error(*governance, offered_mint, collateral_mint)
        },
{
    if !(offered_mint == collateral_mint) {
        return Err(CustomError::InvalidCollateralMint);
    }
    if !supports_collateral(governance, collateral_mint) {
        return Err(CustomError::UnsupportedCollateral);
    }
    let credit: u64 = if reward_pool.total_staked < crate::state::BOOST_THRESHOLD {
        match amount.checked_mul(BOOST_NUMERATOR) {
            Some(scaled) => scaled / BOOST_DENOMINATOR,
            None => {
                return Err(CustomError::ArithmeticOverflow);
            },
        }
    } else {
        amount
    };
    let new_staked = match staker.staked_amount.checked_add(credit) {
        Some(v) => v,
        None => {
            return Err(CustomError::ArithmeticOverflow);
        },
    };
    let lock_end = match current_slot.checked_add(lock_duration) {
        Some(v) => v,
        None => {
            return Err(CustomError::ArithmeticOverflow);
        },
    };
    let new_total = match reward_pool.total_staked.checked_add(credit) {
        Some(v) => v,
        None => {
            return Err(CustomError::ArithmeticOverflow);
        },
    };
    let new_counter = match reward_pool.update_counter.checked_add(1) {
        Some(v) => v,
        None => {
            return Err(CustomError::ArithmeticOverflow);
        },
    };
    staker.staked_amount = new_staked;
    staker.collateral_mint = collateral_mint;
    staker.last_compound_slot = current_slot;
    staker.lock_end_slot = lock_end;
    reward_pool.total_staked = new_total;
    reward_pool.update_counter = new_counter;
    Ok(StakeEffect { collateral_to_vault: amount, claim_minted: amount, ledger_credit: credit })
}

/// When compounding goes through: the clock has not moved backwards,
/// the rate's denominator is non-zero, and every addition fits.
pub open spec fn compound_allowed(
    governance: Governance,
    pool: RewardPool,
    staker: Staker,
    now_slot: u64,
) -> bool {
    let elapsed = now_slot - staker.last_compound_slot;
    let reward = compound_reward(
        staker.staked_amount,
        governance.compound_rate_numerator,
        governance.compound_rate_denominator,
        elapsed as u64,
    );
    &&& now_slot >= staker.last_compound_slot
    &&& governance.compound_rate_denominator > 0
    &&& staker.staked_amount * governance.compound_rate_numerator <= u64::MAX
    &&& staker.staked_amount * governance.compound_rate_numerator * elapsed <= u64::MAX
    &&& staker.staked_amount + reward <= u64::MAX
    &&& pool.total_staked + reward <= u64::MAX
    &&& pool.update_counter + 1 <= u64::MAX
}

/// The records a successful compounding produces, and the reward it
/// adds to both ledger balances.  Compounding moves no tokens: it only
/// grows ledger numbers.
pub open spec fn compound_result(
    governance: Governance,
    pool: RewardPool,
    staker: Staker,
    now_slot: u64,
) -> (RewardPool, Staker, u64)
    recommends
        compound_allowed(governance, pool, staker, now_slot),
{
    let reward = compound_reward(
        staker.staked_amount,
        governance.compound_rate_numerator,
        governance.compound_rate_denominator,
        (now_slot - staker.last_compound_slot) as u64,
    ) as u64;
    (
        RewardPool {
            total_staked: (pool.total_staked + reward) as u64,
            update_counter: (pool.update_counter + 1) as u64,
            ..pool
        },
        Staker {
            staked_amount: (staker.staked_amount + reward) as u64,
            last_compound_slot: now_slot,
            ..staker
        },
        reward,
    )
}

/// Compound the staking position: add staked * rate * elapsed-slots
/// (truncating) to both the position and the pool's total, and reset
/// the compounding clock.  Every failure is arithmetic.
pub fn compound_rewards(
    governance: &Governance,
    reward_pool: &mut RewardPool,
    staker: &mut Staker,
    current_slot: u64,
) -> (r: Result<u64, CustomError>)
    ensures
        r is Ok <==> compound_allowed(*governance, *old(reward_pool), *old(staker), current_slot),
        r matches Ok(reward) ==> ({
            let (pool1, staker1, reward1) = compound_result(
                *governance,
                *old(reward_pool),
                *old(staker),
                current_slot,
            );
            &&& *final(reward_pool) == pool1
            &&& *final(staker) == staker1
            &&& reward == reward1
        }),
        r matches Err(e) ==> {
            &&& *final(reward_pool) == *old(reward_pool)
            &&& *final(staker) == *old(staker)
            &&& e == CustomError::ArithmeticOverflow
        },
{
    let elapsed = match current_slot.checked_sub(staker.last_compound_slot) {
        Some(v) => v,
        None => {
            return Err(CustomError::ArithmeticOverflow);
        },
    };
    let scaled = match staker.staked_amount.checked_mul(governance.compound_rate_numerator) {
        Some(v) => v,
        None => {
            return Err(CustomError::ArithmeticOverflow);
        },
    };
    let grown = match scaled.checked_mul(elapsed) {
        Some(v) => v,
        None => {
            return Err(CustomError::ArithmeticOverflow);
        },
    };
    let reward = match grown.checked_div(governance.compound_rate_denominator) {
        Some(v) => v,
        None => {
            return Err(CustomError::ArithmeticOverflow);
        },
    };
    let new_staked = match staker.staked_amount.checked_add(reward) {
        Some(v) => v,
        None => {
            return Err(CustomError::ArithmeticOverflow);
        },
    };
    let new_total = match reward_pool.total_staked.checked_add(reward) {
        Some(v) => v,
        None => {
            return Err(CustomError::ArithmeticOverflow);
        },
    };
    let new_counter = match reward_pool.update_counter.checked_add(1) {
        Some(v) => v,
        None => {
            return Err(CustomError::ArithmeticOverflow);
        },
    };
    staker.staked_amount = new_staked;
    staker.last_compound_slot = current_slot;
    reward_pool.total_staked = new_total;
    reward_pool.update_counter = new_counter;
    Ok(reward)
}

/// When an unstake goes through: the lock has expired, the position
/// covers the amount, and so does the pool's total.
pub open spec fn unstake_allowed(
    pool: RewardPool,
    staker: Staker,
    amount: u64,
    now_slot: u64,
) -> bool {
    &&& now_slot >= staker.lock_end_slot
    &&& staker.staked_amount >= amount
    &&& pool.total_staked >= amount
    &&& pool.update_counter + 1 <= u64::MAX
}

/// The records and effect a successful unstake produces.  No claim
/// token is burnt.
pub open spec fn unstake_result(
    pool: RewardPool,
    staker: Staker,
    amount: u64,
    now_slot: u64,
) -> (RewardPool, Staker, UnstakeEffect)
    recommends
        unstake_allowed(pool, staker, amount, now_slot),
{
    (
        RewardPool {
            total_staked: (pool.total_staked - amount) as u64,
            update_counter: (pool.update_counter + 1) as u64,
            ..pool
        },
        Staker { staked_amount: (staker.staked_amount - amount) as u64, ..staker },
        UnstakeEffect { collateral_to_user: amount },
    )
}

/// The error a refused unstake aborts with, in check order: the lock,
/// then the position's balance, then arithmetic.
pub open spec fn unstake_error(
    pool: RewardPool,
    staker: Staker,
    amount: u64,
    now_slot: u64,
) -> CustomError {
    if now_slot < staker.lock_end_slot {
        CustomError::StakingLocked
    } else if staker.staked_amount < amount {
        CustomError::InsufficientStakedAmount
    } else {
        CustomError::ArithmeticOverflow
    }
}

/// Unstake `amount` units after the lock has expired: both ledger
/// balances drop by exactly the raw amount and the host returns that
/// amount of collateral from the vault.
pub fn unstake(
    reward_pool: &mut RewardPool,
    staker: &mut Staker,
    amount: u64,
    current_slot: u64,
) -> (r: Result<UnstakeEffect, CustomError>)
    ensures
        r is Ok <==> unstake_allowed(*old(reward_pool), *old(staker), amount, current_slot),
        r matches Ok(eff) ==> ({
            let (pool1, staker1, eff1) = unstake_result(
                *old(reward_pool),
                *old(staker),
                amount,
                current_slot,
            );
            &&& *final(reward_pool) == pool1
            &&& *final(staker) == staker1
            &&& eff == eff1
        }),
        r matches Err(e) ==> {
            &&& *final(reward_pool) == *old(reward_pool)
            &&& *final(staker) == *old(staker)
            &&& e == unstake_error(*old(reward_pool), *old(staker), amount, current_slot)
        },
{
    if current_slot < staker.lock_end_slot {
        return Err(CustomError::StakingLocked);
    }
    if staker.staked_amount < amount {
        return Err(CustomError::InsufficientStakedAmount);
    }
    let new_staked = staker.staked_amount - amount;
    let new_total = match reward_pool.total_staked.checked_sub(amount) {
        Some(v) => v,
        None => {
            return Err(CustomError::ArithmeticOverflow);
        },
    };
    let new_counter = match reward_pool.update_counter.checked_add(1) {
        Some(v) => v,
        None => {
            return Err(CustomError::ArithmeticOverflow);
        },
    };
    staker.staked_amount = new_staked;
    reward_pool.total_staked = new_total;
    reward_pool.update_counter = new_counter;
    Ok(UnstakeEffect { collateral_to_user: amount })
}

/// An unstake is refused whenever the position is still locked — for
/// any offered amount — and whenever the amount exceeds the staked
/// balance.
pub proof fn lemma_unstake_rejected(pool: RewardPool, staker: Staker, amount: u64, now_slot: u64)
    requires
        now_slot < staker.lock_end_slot || amount > staker.staked_amount,
    ensures
        !unstake_allowed(pool, staker, amount, now_slot),
{
}

/// Round trip: a stake followed — after the lock expires, with no
/// compounding or borrowing in between — by an unstake of the same
/// amount restores the pool's total and the position's balance
/// exactly.  This holds of unboosted stakes: a boosted stake credits
/// more than the raw amount, so unstaking the raw amount cannot
/// restore the ledger.
pub proof fn lemma_stake_unstake_round_trip(
    governance: Governance,
    pool: RewardPool,
    staker: Staker,
    collateral_mint: AccountId,
    amount: u64,
    lock_duration: u64,
    stake_slot: u64,
    unstake_slot: u64,
)
    requires
        stake_allowed(
            governance,
            pool,
            staker,
            collateral_mint,
            collateral_mint,
            amount,
            lock_duration,
            stake_slot,
        ),
        !boost_applies(pool.total_staked),
        unstake_slot >= stake_slot + lock_duration,
        pool.update_counter + 2 <= u64::MAX,
    ensures
        ({
            let (pool1, staker1, _) = stake_result(
                pool,
                staker,
                collateral_mint,
                amount,
                lock_duration,
                stake_slot,
            );
            let (pool2, staker2, _) = unstake_result(pool1, staker1, amount, unstake_slot);
            &&& unstake_allowed(pool1, staker1, amount, unstake_slot)
            &&& pool2.total_staked == pool.total_staked
            &&& staker2.staked_amount == staker.staked_amount
            &&& pool2.accrued_fees == pool.accrued_fees
            &&& pool2.active_loan_total == pool.active_loan_total
        }),
{
}

} // verus!
