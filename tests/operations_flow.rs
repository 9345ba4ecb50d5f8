use investment_income_based::balance::ContractBalance;
use investment_income_based::data::{ContractData, InvestmentContractParams, State};
use investment_income_based::investment::{Investment, InvestmentReturnType, InvestmentStatus};
use investment_income_based::operations::{
    plan_claim, plan_company_transfer, plan_investment, plan_investor_payment, plan_move_to_reserve,
    plan_withdrawal, validate_contract_params,
};
use investment_income_based::validation::Error;
use soroban_sdk::testutils::Address as _;
use soroban_sdk::{Address, Env};

const DAY: u64 = 86_400;
const DECIMALS: u8 = 7;

fn params(i_rate: u32, goal: i128, return_type: u32, return_months: u32, min: i128) -> InvestmentContractParams {
    InvestmentContractParams {
        i_rate,
        claim_block_days: 7,
        goal,
        return_type,
        return_months,
        min_per_investment: min,
    }
}

fn contract_data(env: &Env, goal: i128, return_type: u32) -> ContractData {
    ContractData::from_investment_contract_params(
        &params(500, goal, return_type, 4, 100),
        Address::generate(env),
        Address::generate(env),
    )
}

/// Books an investment of `amount` at time `now` and returns it with the new balances.
fn invest(env: &Env, cd: &mut ContractData, balances: &ContractBalance, amount: i128, now: u64) -> (Investment, ContractBalance) {
    let plan = plan_investment(env, cd, balances, amount, 1_000_000, DECIMALS, now).unwrap();
    cd.state = plan.state;
    let inv = Investment::new(env, cd, &amount, DECIMALS, 1, now);
    (inv, plan.balances)
}

#[test]
fn test_constructor_interest_rate_zero() {
    assert_eq!(
        validate_contract_params(&params(0, 1000000, 1, 4, 100)),
        Err(Error::InterestRateMustBeGreaterThanZero)
    );
}

#[test]
fn test_constructor_goal_zero() {
    assert_eq!(validate_contract_params(&params(500, 0, 1, 4, 100)), Err(Error::GoalMustBeGreaterThanZero));
}

#[test]
fn test_constructor_invalid_return_type() {
    assert_eq!(validate_contract_params(&params(500, 1000000, 0, 4, 100)), Err(Error::UnsupportedReturnType));
}

#[test]
fn test_constructor_return_months_zero() {
    assert_eq!(
        validate_contract_params(&params(500, 1000000, 1, 0, 100)),
        Err(Error::ReturnMonthsMustBeGreaterThanZero)
    );
}

#[test]
fn test_constructor_min_investment_zero() {
    assert_eq!(
        validate_contract_params(&params(500, 1000000, 1, 4, 0)),
        Err(Error::MinPerInvestmentMustBeGreaterThanZero)
    );
}

#[test]
fn valid_contract_params_name_the_return_type() {
    assert_eq!(validate_contract_params(&params(500, 1000000, 1, 4, 100)), Ok(InvestmentReturnType::ReverseLoan));
    assert_eq!(validate_contract_params(&params(500, 1000000, 2, 4, 100)), Ok(InvestmentReturnType::Coupon));
}

#[test]
fn test_goal_reached() {
    let env = Env::default();
    let mut cd = contract_data(&env, 90000, 2);
    let (_, balances) = invest(&env, &mut cd, &ContractBalance::new(), 89000, 0);
    assert_eq!(balances.received_so_far, 88_555);
    assert_eq!(cd.state, State::Active);
    let second = plan_investment(&env, &cd, &balances, 2200, 1_000_000, DECIMALS, 0);
    assert_eq!(second.err(), Some(Error::WouldExceedGoal));
}

#[test]
fn reaching_the_goal_marks_funds_reached() {
    let env = Env::default();
    let mut cd = contract_data(&env, 99_500, 1);
    let (_, balances) = invest(&env, &mut cd, &ContractBalance::new(), 100_000, 0);
    assert_eq!(balances.received_so_far, 99_500);
    assert_eq!(cd.state, State::FundsReached);
    let again = plan_investment(&env, &cd, &balances, 100, 1_000_000, DECIMALS, 0);
    assert_eq!(again.err(), Some(Error::GoalAlreadyReached));
}

#[test]
fn test_invest_insufficient_balance() {
    let env = Env::default();
    let cd = contract_data(&env, 1000000, 1);
    let r = plan_investment(&env, &cd, &ContractBalance::new(), 100000, 50000, DECIMALS, 0);
    assert_eq!(r.err(), Some(Error::AddressInsufficientBalance));
}

#[test]
fn test_invest_amount_less_than_minimum() {
    let env = Env::default();
    let cd = contract_data(&env, 1000000, 1);
    let r = plan_investment(&env, &cd, &ContractBalance::new(), 50, 1000000, DECIMALS, 0);
    assert_eq!(r.err(), Some(Error::AmountLessThanMinimum));
}

#[test]
fn investment_plan_splits_and_books_the_deposit() {
    let env = Env::default();
    let cd = contract_data(&env, 1_000_000, 1);
    let plan = plan_investment(&env, &cd, &ContractBalance::new(), 100_000, 100_000, DECIMALS, 0).unwrap();
    assert_eq!(plan.amounts.amount_to_commission, 500);
    assert_eq!(plan.amounts.amount_to_reserve_fund, 5_000);
    assert_eq!(plan.amounts.amount_to_invest, 94_500);
    assert_eq!(plan.balances.comission, 500);
    assert_eq!(plan.balances.reserve, 5_000);
    assert_eq!(plan.balances.project, 94_500);
    assert_eq!(plan.balances.received_so_far, 99_500);
    assert_eq!(plan.state, State::Active);
}

#[test]
fn investment_too_large_to_split_is_an_overflow() {
    let env = Env::default();
    let mut cd = contract_data(&env, i128::MAX, 1);
    cd.min_per_investment = 1;
    let r = plan_investment(&env, &cd, &ContractBalance::new(), i128::MAX / 2, i128::MAX, DECIMALS, 0);
    assert_eq!(r.err(), Some(Error::ArithmeticOverflow));
}

#[test]
fn test_process_payment_not_claimable_yet() {
    let env = Env::default();
    let mut cd = contract_data(&env, 1000000, 1);
    let (inv, balances) = invest(&env, &mut cd, &ContractBalance::new(), 100000, 0);
    let r = plan_investor_payment(&cd, &inv, &balances, 0);
    assert_eq!(r.err(), Some(Error::AddressInvestmentIsNotClaimableYet));
}

#[test]
fn test_process_payment_insufficient_reserve() {
    let env = Env::default();
    let mut cd = contract_data(&env, 1000000, 1);
    let (inv, balances) = invest(&env, &mut cd, &ContractBalance::new(), 100000, 0);
    let r = plan_investor_payment(&cd, &inv, &balances, inv.claimable_ts);
    assert_eq!(r.err(), Some(Error::ContractInsufficientBalance));
}

#[test]
fn test_process_payment_investment_finished() {
    let env = Env::default();
    let mut cd = contract_data(&env, 1000000, 1);
    let (mut inv, balances) = invest(&env, &mut cd, &ContractBalance::new(), 100000, 0);
    let mut balances = plan_company_transfer(&balances, 1000000, 500000).unwrap();
    let mut now = inv.claimable_ts;
    let mut count = 0;
    let mut plan = plan_investor_payment(&cd, &inv, &balances, now).unwrap();
    inv = plan.investment;
    balances = plan.balances;
    while inv.status != InvestmentStatus::Finished && count < 4 {
        now += 31 * 24 * 60 * 60;
        plan = plan_investor_payment(&cd, &inv, &balances, now).unwrap();
        inv = plan.investment;
        balances = plan.balances;
        count += 1;
    }
    assert_eq!(inv.status, InvestmentStatus::Finished);
    assert_eq!(inv.payments_transferred, 4);
    assert_eq!(balances.payments, 4 * 26_118);
    let r = plan_investor_payment(&cd, &inv, &balances, now + 31 * DAY);
    assert_eq!(r.err(), Some(Error::AddressInvestmentIsFinished));
    let c = plan_claim(&cd, &inv, &balances, now + 31 * DAY);
    assert_eq!(c.err(), Some(Error::AddressInvestmentIsFinished));
}

#[test]
fn test_process_payment_next_transfer_not_ready() {
    let env = Env::default();
    let mut cd = contract_data(&env, 1000000, 1);
    let (inv, balances) = invest(&env, &mut cd, &ContractBalance::new(), 100000, 0);
    let balances = plan_company_transfer(&balances, 1000000, 500000).unwrap();
    let now = inv.claimable_ts;
    let plan = plan_investor_payment(&cd, &inv, &balances, now).unwrap();
    assert_eq!(plan.amount, 26_118);
    assert_eq!(plan.claim.next_transfer_ts, now + 30 * DAY);
    assert_eq!(plan.claim.amount_to_pay, 26_118);
    let r = plan_investor_payment(&cd, &plan.investment, &plan.balances, now + 15 * 24 * 60 * 60);
    assert_eq!(r.err(), Some(Error::AddressInvestmentNextTransferNotClaimableYet));
}

#[test]
fn test_single_withdrawn_insufficient_balance() {
    let env = Env::default();
    let mut cd = contract_data(&env, 1000000, 1);
    let (_, balances) = invest(&env, &mut cd, &ContractBalance::new(), 100000, 0);
    assert_eq!(plan_withdrawal(&balances, 160000).err(), Some(Error::ContractInsufficientBalance));
    let all = plan_withdrawal(&balances, balances.project).unwrap();
    assert_eq!(all.project, 0);
    assert_eq!(all.project_withdrawals, 94_500);
}

#[test]
fn test_move_funds_insufficient_project_balance() {
    let env = Env::default();
    let mut cd = contract_data(&env, 1000000, 1);
    let (_, balances) = invest(&env, &mut cd, &ContractBalance::new(), 100000, 0);
    assert_eq!(plan_move_to_reserve(&balances, 500000).err(), Some(Error::ProjectBalanceInsufficientAmount));
    assert_eq!(
        plan_move_to_reserve(&balances, balances.project).err(),
        Some(Error::ProjectBalanceInsufficientAmount)
    );
    let moved = plan_move_to_reserve(&balances, 4_500).unwrap();
    assert_eq!((moved.project, moved.reserve, moved.moved_from_project_to_reserve), (90_000, 9_500, 4_500));
}

#[test]
fn test_add_company_transfer_insufficient_balance() {
    let env = Env::default();
    let mut cd = contract_data(&env, 1000000, 1);
    let (_, balances) = invest(&env, &mut cd, &ContractBalance::new(), 100000, 0);
    assert_eq!(
        plan_company_transfer(&balances, 0, 100000).err(),
        Some(Error::AddressInsufficientBalance)
    );
}

#[test]
fn claim_pays_every_period_due_at_once() {
    let env = Env::default();
    let mut cd = contract_data(&env, 1_000_000, 2);
    let (inv, balances) = invest(&env, &mut cd, &ContractBalance::new(), 100_000, 0);
    let balances = plan_company_transfer(&balances, 1_000_000, 500_000).unwrap();
    let early = plan_claim(&cd, &inv, &balances, inv.claimable_ts - 1);
    assert_eq!(early.err(), Some(Error::AddressInvestmentIsNotClaimableYet));
    let now = inv.claimable_ts + 65 * DAY;
    let plan = plan_claim(&cd, &inv, &balances, now).unwrap();
    assert_eq!(plan.investment.payments_transferred, 3);
    assert_eq!(plan.amount, 3 * 1_243);
    assert_eq!(plan.investment.status, InvestmentStatus::CashFlowing);
    assert_eq!(plan.balances.reserve, balances.reserve - 3 * 1_243);
    let too_soon = plan_claim(&cd, &plan.investment, &plan.balances, now + 29 * DAY);
    assert_eq!(too_soon.err(), Some(Error::AddressInvestmentNextTransferNotClaimableYet));
    let last = plan_claim(&cd, &plan.investment, &plan.balances, now + 200 * DAY).unwrap();
    assert_eq!(last.investment.payments_transferred, 4);
    assert_eq!(last.amount, 1_243 + 99_500);
    assert_eq!(last.investment.status, InvestmentStatus::Finished);
    assert_eq!(last.investment.paid, 4 * 1_243 + 99_500);
}

#[test]
fn coupon_terminal_payment_with_principal_bullet() {
    let env = Env::default();
    let mut cd = contract_data(&env, 1_000_000, 2);
    let plan = plan_investment(&env, &cd, &ContractBalance::new(), 100_000, 100_000, 2, 0).unwrap();
    cd.state = plan.state;
    let mut inv = Investment::new(&env, &cd, &100_000, 2, 1, 0);
    assert_eq!(inv.deposited, 99_584);
    let mut balances = plan_company_transfer(&plan.balances, 1_000_000, 200_000).unwrap();
    let mut now = inv.claimable_ts;
    let mut amounts = Vec::new();
    for _ in 0..4 {
        let p = plan_investor_payment(&cd, &inv, &balances, now).unwrap();
        amounts.push(p.amount);
        inv = p.investment;
        balances = p.balances;
        now += 30 * DAY;
    }
    assert_eq!(amounts, vec![1_244, 1_244, 1_244, 1_244 + 99_584]);
    assert_eq!(inv.status, InvestmentStatus::Finished);
    assert_eq!(
        balances.reserve + balances.project,
        balances.received_so_far + balances.reserve_contributions - balances.payments - balances.project_withdrawals
    );
}
