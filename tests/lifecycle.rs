use investment_income_based::data::{ContractData, FromNumber, InvestmentContractParams, State};
use investment_income_based::investment::{Investment, InvestmentReturnType, InvestmentStatus};
use soroban_sdk::testutils::Address as _;
use soroban_sdk::{Address, Env};

fn contract_data(env: &Env, claim_block_days: u64, return_type: u32, return_months: u32) -> ContractData {
    let params = InvestmentContractParams {
        i_rate: 500,
        claim_block_days,
        goal: 1_000_000,
        return_type,
        return_months,
        min_per_investment: 100,
    };
    ContractData::from_investment_contract_params(
        &params,
        Address::generate(env),
        Address::generate(env),
    )
}

#[test]
fn return_type_from_number() {
    assert_eq!(InvestmentReturnType::from_number(1), Some(InvestmentReturnType::ReverseLoan));
    assert_eq!(InvestmentReturnType::from_number(2), Some(InvestmentReturnType::Coupon));
    assert_eq!(InvestmentReturnType::from_number(0), None);
    assert_eq!(InvestmentReturnType::from_number(3), None);
}

#[test]
fn contract_data_from_params_starts_active() {
    let env = Env::default();
    let cd = contract_data(&env, 7, 2, 4);
    assert_eq!(cd.interest_rate, 500);
    assert_eq!(cd.claim_block_days, 7);
    assert_eq!(cd.state, State::Active);
    assert_eq!(cd.return_type, InvestmentReturnType::Coupon);
    assert_eq!(cd.return_months, 4);
    assert_eq!(cd.min_per_investment, 100);
    assert_eq!(cd.goal, 1_000_000);
}

#[test]
fn new_reverse_loan_investment() {
    let env = Env::default();
    let cd = contract_data(&env, 7, 1, 4);
    let inv = Investment::new(&env, &cd, &100_000, 7, 3, 1_000);
    assert_eq!(inv.deposited, 99_500);
    assert_eq!(inv.commission, 500);
    assert_eq!(inv.accumulated_interests, 4_975);
    assert_eq!(inv.total, 104_475);
    assert_eq!(inv.regular_payment, 26_118);
    assert_eq!(inv.claimable_ts, 1_000 + 7 * 86_400);
    assert_eq!(inv.last_transfer_ts, 0);
    assert_eq!(inv.status, InvestmentStatus::Blocked);
    assert_eq!(inv.paid, 0);
    assert_eq!(inv.payments_transferred, 0);
    assert_eq!(inv.token_id, 3);
}

#[test]
fn new_investment_without_lock_is_claimable() {
    let env = Env::default();
    let cd = contract_data(&env, 0, 2, 4);
    let inv = Investment::new(&env, &cd, &100_000, 7, 1, 5_000);
    assert_eq!(inv.status, InvestmentStatus::Claimable);
    assert_eq!(inv.claimable_ts, 5_000);
    assert_eq!(inv.regular_payment, 1_243);
}

#[test]
fn coupon_last_payment_returns_the_principal() {
    let env = Env::default();
    let cd = contract_data(&env, 7, 2, 4);
    let mut inv = Investment::new(&env, &cd, &100_000, 2, 1, 0);
    assert_eq!(inv.deposited, 99_584);
    assert_eq!(inv.accumulated_interests, 4_979);
    assert_eq!(inv.regular_payment, 1_244);
    let mut now: u64 = inv.claimable_ts;
    for _ in 0..3 {
        let amount = inv.process_investment_payment(&cd, now);
        assert_eq!(amount, 1_244);
        assert_eq!(inv.status, InvestmentStatus::CashFlowing);
        now += 2_592_000;
    }
    let last = inv.process_investment_payment(&cd, now);
    assert_eq!(last, 1_244 + 99_584);
    assert_eq!(inv.status, InvestmentStatus::Finished);
    assert_eq!(inv.paid, 4 * 1_244 + 99_584);
    assert_eq!(inv.payments_transferred, 4);
    assert_eq!(inv.last_transfer_ts, now);
}

#[test]
fn reverse_loan_last_payment_has_no_principal_bullet() {
    let env = Env::default();
    let cd = contract_data(&env, 0, 1, 2);
    let mut inv = Investment::new(&env, &cd, &100_000, 7, 1, 0);
    // total 104475 over two periods: 52237 each, one unit lost to rounding
    assert_eq!(inv.process_investment_payment(&cd, 10), 52_237);
    assert_eq!(inv.process_investment_payment(&cd, 20), 52_237);
    assert_eq!(inv.status, InvestmentStatus::Finished);
    assert_eq!(inv.paid, 104_474);
}

#[test]
fn batched_payments_equal_single_payments() {
    let env = Env::default();
    for return_type in [1u32, 2] {
        let cd = contract_data(&env, 7, return_type, 4);
        let start = Investment::new(&env, &cd, &100_000, 2, 9, 0);
        for n in 1u32..=4 {
            let mut batched = start;
            let batched_amount = batched.process_multiple_payments(&cd, n, 777);
            let mut single = start;
            let mut single_amount: i128 = 0;
            for _ in 0..n {
                single_amount += single.process_investment_payment(&cd, 777);
            }
            assert_eq!(batched, single);
            assert_eq!(batched_amount, single_amount);
        }
    }
}

#[test]
fn multiple_payments_reaching_the_end_finish_a_coupon() {
    let env = Env::default();
    let cd = contract_data(&env, 7, 2, 4);
    let mut inv = Investment::new(&env, &cd, &100_000, 2, 1, 0);
    let amount = inv.process_multiple_payments(&cd, 4, 50);
    assert_eq!(amount, 4 * 1_244 + 99_584);
    assert_eq!(inv.status, InvestmentStatus::Finished);
    assert_eq!(inv.payments_transferred, 4);
    assert_eq!(inv.last_transfer_ts, 50);
}

#[test]
fn can_pay_detects_overflow() {
    let env = Env::default();
    let cd = contract_data(&env, 7, 2, 4);
    let inv = Investment::new(&env, &cd, &100_000, 2, 1, 0);
    assert!(inv.can_pay(&cd, 1));
    assert!(inv.can_pay(&cd, 4));
    let mut huge = inv;
    huge.paid = i128::MAX - 10;
    assert!(!huge.can_pay(&cd, 1));
    let mut many = inv;
    many.payments_transferred = u32::MAX;
    assert!(!many.can_pay(&cd, 1));
}
