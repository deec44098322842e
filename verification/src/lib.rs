//! State-transition engine for a collateralized staking / flash-loan
//! protocol.
//!
//! Users stake collateral to receive a claim token, borrow liquidity
//! against that collateral for short fixed-duration loans with a
//! utilization- and oracle-priced fee, repay with time-based penalties,
//! or are liquidated once overdue past a grace period.  A shared
//! [`state::RewardPool`] ledger aggregates every operation.
//!
//! The engine is pure: every operation is a verified function from the
//! affected records and plain inputs (current slot, oracle reading) to
//! the mutated records plus an effect value describing the custody
//! transfers the host must perform.  Token custody, signature checks,
//! record storage and the oracle query itself are host collaborators
//! and stay outside this crate.

pub mod fees;
pub mod governance;
pub mod loans;
pub mod staking;
pub mod state;

pub use fees::fee_bps_for_utilization;
pub use governance::supports_collateral;
pub use governance::update_governance_parameters;
pub use loans::borrow;
pub use loans::liquidate;
pub use loans::repay;
pub use staking::compound_rewards;
pub use staking::stake;
pub use staking::unstake;
