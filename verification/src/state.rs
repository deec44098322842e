//! The persisted records of the protocol: governance parameters, the
//! global reward-pool ledger, per-staker positions and per-loan records,
//! together with the identity type and the error kinds shared by every
//! operation.

use vstd::prelude::*;

verus! {

/// Staking credits are boosted while the pool's total stake is below
/// this many native units.
pub const BOOST_THRESHOLD: u64 = 10_000;

/// Numerator of the early-adopter boost: credit = amount * 150 / 100.
pub const BOOST_NUMERATOR: u64 = 150;

/// Denominator of the early-adopter boost.
pub const BOOST_DENOMINATOR: u64 = 100;

/// Basis-point scale: fees and ratios are fractions over 10_000.
pub const BPS_SCALE: u64 = 10_000;

/// Utilization is expressed as a percentage, scaled by 100.
pub const UTILIZATION_SCALE: u64 = 100;

/// The oracle fee adjustment divides the base fee, scaled by 100, by
/// the oracle price.
pub const ORACLE_FEE_SCALE: u64 = 100;

/// A 32-byte identity (a signer, a collateral kind, a borrower), held
/// as four 64-bit words so that equality is plain field equality.
#[derive(Clone, Copy, PartialEq, Eq, Structural, Debug)]
pub struct AccountId {
    pub w0: u64,
    pub w1: u64,
    pub w2: u64,
    pub w3: u64,
}

/// Protocol-wide tunable parameters, mutated only through the
/// governance-update operation.
#[derive(Clone, Debug)]
pub struct Governance {
    /// The only identity allowed to update these parameters.
    pub admin: AccountId,
    /// Default flash-loan fee in basis points (unused while fees are
    /// priced dynamically).
    pub flash_loan_fee_bps: u64,
    /// Penalty per overdue slot, in basis points of the principal.
    pub liquidation_penalty_bps: u64,
    /// Extra slots past a loan's due slot before liquidation opens.
    pub liquidation_grace_slots: u64,
    /// Numerator of the per-slot compounding rate.
    pub compound_rate_numerator: u64,
    /// Denominator of the per-slot compounding rate.
    pub compound_rate_denominator: u64,
    /// Maximum borrowable amount as basis points of staked collateral.
    pub max_borrow_ratio: u64,
    /// Approved collateral kinds.
    pub supported_collaterals: Vec<AccountId>,
}

/// The global aggregate ledger, updated by every operation.
#[derive(Clone, Copy, PartialEq, Eq, Structural, Debug)]
pub struct RewardPool {
    /// Sum of all ledger credits ever staked, minus unstakes.
    pub total_staked: u64,
    /// Fees and penalties credited to the pool.
    pub accrued_fees: u64,
    /// Sum of the principals of the loans currently active.
    pub active_loan_total: u64,
    /// Monotonic counter of ledger updates.
    pub update_counter: u64,
}

/// One user's staking position in one collateral kind.
#[derive(Clone, Copy, PartialEq, Eq, Structural, Debug)]
pub struct Staker {
    /// The ledger balance of this position (credits, possibly boosted).
    pub staked_amount: u64,
    /// The collateral kind this position is held in.
    pub collateral_mint: AccountId,
    /// Slot of the last compounding (or of the last stake).
    pub last_compound_slot: u64,
    /// Slot at which the position unlocks for unstaking.
    pub lock_end_slot: u64,
}

/// One outstanding borrow.
#[derive(Clone, Copy, PartialEq, Eq, Structural, Debug)]
pub struct Loan {
    /// The borrower's identity.
    pub borrower: AccountId,
    /// Principal owed.
    pub amount: u64,
    /// Slot at which the loan was taken.
    pub start_slot: u64,
    /// Slot by which the loan must be repaid.
    pub due_slot: u64,
    /// Whether the loan is still outstanding.
    pub active: bool,
}

/// Derivation bump of the custody authority over one collateral kind's
/// pooled vault; immutable after creation.
#[derive(Clone, Copy, PartialEq, Eq, Structural, Debug)]
pub struct VaultAccount {
    pub bump: u8,
}

/// Derivation bump of the claim-token mint authority; immutable after
/// creation.
#[derive(Clone, Copy, PartialEq, Eq, Structural, Debug)]
pub struct MintWrapper {
    pub bump: u8,
}

/// The single typed failure reason an operation aborts with.  Every
/// error is fatal: the caller's records are left unchanged.
#[derive(Clone, Copy, PartialEq, Eq, Structural, Debug)]
pub enum CustomError {
    /// Repayment amount below principal plus penalty.
    RepaymentFeeMissing,
    /// The offered token kind is not the declared collateral kind.
    InvalidCollateralMint,
    /// The collateral kind is not in the approved list.
    UnsupportedCollateral,
    /// Borrow amount exceeds the collateral-derived limit.
    BorrowAmountExceedsCollateral,
    /// The staking position is still locked.
    StakingLocked,
    /// Unstake amount exceeds the staked balance.
    InsufficientStakedAmount,
    /// The loan record offered to `borrow` is already active.
    ReentrancyDetected,
    /// The loan is not active on repay.
    LoanNotActive,
    /// The loan is not yet past its due slot plus the grace period.
    LoanNotOverdue,
    /// The oracle price is unavailable or stale.
    OraclePriceUnavailable,
    /// The wall-clock timestamp is negative.
    InvalidTimestamp,
    /// A checked fixed-point computation overflowed, underflowed, or
    /// divided by zero.
    ArithmeticOverflow,
}

} // verus!
