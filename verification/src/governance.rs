//! The governance store: the approved-collateral lookup shared by the
//! staking engine, and the admin parameter-update operation.

use vstd::prelude::*;

use crate::state::AccountId;
use crate::state::Governance;

verus! {

/// Whether `kind` is in the approved collateral list of `governance`.
pub fn supports_collateral(governance: &Governance, kind: AccountId) -> (r: bool)
    ensures
        r == governance.supported_collaterals@.contains(kind),
{
    let mut i: usize = 0;
    while i < governance.supported_collaterals.len()
        invariant
            i <= governance.supported_collaterals@.len(),
            forall|k: int| 0 <= k < i ==> governance.supported_collaterals@[k] != kind,
        decreases governance.supported_collaterals@.len() - i,
    {
        if governance.supported_collaterals[i] == kind {
            assert(governance.supported_collaterals@[i as int] == kind);
            return true;
        }
        i += 1;
    }
    false
}

/// Unconditionally overwrite the six tunable parameters.  The host
/// admits only the admin recorded in the governance record to this
/// operation; the admin identity and the approved-collateral list are
/// left unchanged, and no range validation is applied.
pub fn update_governance_parameters(
    governance: &mut Governance,
    flash_loan_fee_bps: u64,
    liquidation_penalty_bps: u64,
    liquidation_grace_slots: u64,
    compound_rate_numerator: u64,
    compound_rate_denominator: u64,
    max_borrow_ratio: u64,
)
    ensures
        final(governance).flash_loan_fee_bps == flash_loan_fee_bps,
        final(governance).liquidation_penalty_bps == liquidation_penalty_bps,
        final(governance).liquidation_grace_slots == liquidation_grace_slots,
        final(governance).compound_rate_numerator == compound_rate_numerator,
        final(governance).compound_rate_denominator == compound_rate_denominator,
        final(governance).max_borrow_ratio == max_borrow_ratio,
        final(governance).admin == old(governance).admin,
        final(governance).supported_collaterals@ == old(governance).supported_collaterals@,
{
    governance.flash_loan_fee_bps = flash_loan_fee_bps;
    governance.liquidation_penalty_bps = liquidation_penalty_bps;
    governance.liquidation_grace_slots = liquidation_grace_slots;
    governance.compound_rate_numerator = compound_rate_numerator;
    governance.compound_rate_denominator = compound_rate_denominator;
    governance.max_borrow_ratio = max_borrow_ratio;
}

} // verus!
