use flash_liquidity_token::state::AccountId;
use flash_liquidity_token::state::Governance;
use flash_liquidity_token::fee_bps_for_utilization;
use flash_liquidity_token::supports_collateral;
use flash_liquidity_token::update_governance_parameters;

fn id(n: u64) -> AccountId {
    AccountId { w0: n, w1: 0, w2: 0, w3: 0 }
}

#[test]
fn the_fee_tier_is_a_step_function_of_utilization() {
    assert_eq!(fee_bps_for_utilization(0), 15);
    assert_eq!(fee_bps_for_utilization(18), 15);
    assert_eq!(fee_bps_for_utilization(19), 15);
    assert_eq!(fee_bps_for_utilization(20), 20);
    assert_eq!(fee_bps_for_utilization(79), 20);
    assert_eq!(fee_bps_for_utilization(80), 50);
    assert_eq!(fee_bps_for_utilization(100), 50);
    assert_eq!(fee_bps_for_utilization(u64::MAX), 50);
}

#[test]
fn collateral_support_follows_the_approved_list() {
    let governance = Governance {
        admin: id(1),
        flash_loan_fee_bps: 30,
        liquidation_penalty_bps: 100,
        liquidation_grace_slots: 50,
        compound_rate_numerator: 5,
        compound_rate_denominator: 1000,
        max_borrow_ratio: 10_000,
        supported_collaterals: vec![id(7), id(8)],
    };
    assert!(supports_collateral(&governance, id(7)));
    assert!(supports_collateral(&governance, id(8)));
    assert!(!supports_collateral(&governance, id(9)));

    let empty = Governance { supported_collaterals: vec![], ..governance };
    assert!(!supports_collateral(&empty, id(7)));
}

#[test]
fn updating_parameters_overwrites_all_six_tunables() {
    let mut governance = Governance {
        admin: id(1),
        flash_loan_fee_bps: 30,
        liquidation_penalty_bps: 100,
        liquidation_grace_slots: 50,
        compound_rate_numerator: 5,
        compound_rate_denominator: 1000,
        max_borrow_ratio: 10_000,
        supported_collaterals: vec![id(7)],
    };

    update_governance_parameters(&mut governance, 40, 200, 60, 7, 1200, 8000);
    assert_eq!(governance.flash_loan_fee_bps, 40);
    assert_eq!(governance.liquidation_penalty_bps, 200);
    assert_eq!(governance.liquidation_grace_slots, 60);
    assert_eq!(governance.compound_rate_numerator, 7);
    assert_eq!(governance.compound_rate_denominator, 1200);
    assert_eq!(governance.max_borrow_ratio, 8000);
    // The admin and the approved list are untouched: no range
    // validation, no list change.
    assert_eq!(governance.admin, id(1));
    assert_eq!(governance.supported_collaterals, vec![id(7)]);
}
