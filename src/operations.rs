use crate::balance::{
    can_split, lemma_move_conserves, split_spec, Amount, CalculateAmounts, ContractBalance,
    LedgerMove,
};
use crate::claim::{
    calculate_claimable_payments, calculate_next_claim, claim_time_valid, claimable_periods,
    next_claim_ts, Claim,
};
use crate::constants::{SECONDS_IN_DAY, SECONDS_IN_MONTH};
use crate::data::{ContractData, FromNumber, InvestmentContractParams, State};
use crate::investment::{can_open, Investment, InvestmentReturnType, InvestmentStatus};
use crate::validation::{
    claim_check, constructor_params_check, investment_check, investment_payment_check,
    validate_claim, validate_company_transfer, validate_constructor_params, validate_investment,
    validate_investment_goal, validate_investment_payment, validate_move_to_reserve,
    validate_reserve_balance, validate_withdrawal, Error,
};
use soroban_sdk::Env;
use vstd::prelude::*;

verus! {

/// What an accepted investment changes: how the deposit is split, the new
/// balances, and the funding state afterwards.
pub struct InvestmentPlan {
    pub amounts: Amount,
    pub balances: ContractBalance,
    pub state: State,
}

/// What an accepted payment changes: the investment, the balances, the
/// investment's next claim, and the amount to transfer to the investor.
#[derive(Clone, Copy, Debug, PartialEq, Eq, Structural)]
pub struct PaymentPlan {
    pub investment: Investment,
    pub balances: ContractBalance,
    pub claim: Claim,
    pub amount: i128,
}

/// Outcome of checking the construction parameters: the return type they name.
pub open spec fn contract_params_outcome(params: InvestmentContractParams) -> Result<
    InvestmentReturnType,
    Error,
> {
    match constructor_params_check(
        params.i_rate,
        params.goal,
        params.return_months,
        params.min_per_investment,
    ) {
        Err(e) => Err(e),
        Ok(_) => match InvestmentReturnType::from_number_spec(params.return_type) {
            Some(t) => Ok(t),
            None => Err(Error::UnsupportedReturnType),
        },
    }
}

/// Checks the construction parameters and returns the return type they name.
pub fn validate_contract_params(params: &InvestmentContractParams) -> (r: Result<
    InvestmentReturnType,
    Error,
>)
    ensures
        r == contract_params_outcome(*params),
{
    match validate_constructor_params(
        params.i_rate,
        params.goal,
        params.return_months,
        params.min_per_investment,
    ) {
        Err(e) => Err(e),
        Ok(()) => match InvestmentReturnType::from_number(params.return_type) {
            Some(t) => Ok(t),
            None => Err(Error::UnsupportedReturnType),
        },
    }
}

/// Outcome of an investment of `amount` at time `now` by an investor holding
/// `investor_balance`, in a token with `decimals` decimal places.
pub open spec fn investment_outcome(
    cd: ContractData,
    balances: ContractBalance,
    amount: i128,
    investor_balance: i128,
    decimals: nat,
    now: u64,
) -> Result<InvestmentPlan, Error> {
    match investment_check(amount, cd, investor_balance) {
        Err(e) => Err(e),
        Ok(_) => if cd.return_months == 0 {
            Err(Error::ReturnMonthsMustBeGreaterThanZero)
        } else if !can_open(cd, amount as int, decimals, now) {
            Err(Error::ArithmeticOverflow)
        } else {
            let amounts = split_spec(amount as int, cd.interest_rate as int, decimals);
            let m = LedgerMove::Investment {
                commission: amounts.amount_to_commission,
                reserve: amounts.amount_to_reserve_fund,
                invest: amounts.amount_to_invest,
            };
            if balances.received_so_far + amounts.amount_to_invest + amounts.amount_to_reserve_fund
                > cd.goal {
                Err(Error::WouldExceedGoal)
            } else if !balances.fits(m) {
                Err(Error::ArithmeticOverflow)
            } else {
                let b = balances.after(m);
                Ok(
                    InvestmentPlan {
                        amounts,
                        balances: b,
                        state: if b.received_so_far >= cd.goal {
                            State::FundsReached
                        } else {
                            cd.state
                        },
                    },
                )
            }
        },
    }
}

/// Decides an investment of `amount` at time `now`: checks it, splits it and
/// books it. On success the investment itself can then be opened with
/// `Investment::new` under the same arguments.
pub fn plan_investment(
    e: &Env,
    cd: &ContractData,
    balances: &ContractBalance,
    amount: i128,
    investor_balance: i128,
    decimals: u8,
    now: u64,
) -> (r: Result<InvestmentPlan, Error>)
    ensures
        r == investment_outcome(*cd, *balances, amount, investor_balance, decimals as nat, now),
        r is Ok ==> can_open(*cd, amount as int, decimals as nat, now),
        r is Ok && balances.is_conserved() ==> r->Ok_0.balances.is_conserved(),
{
    match validate_investment(amount, cd, investor_balance) {
        Err(err) => {
            return Err(err);
        },
        Ok(()) => {},
    }
    if cd.return_months == 0 {
        return Err(Error::ReturnMonthsMustBeGreaterThanZero);
    }
    if !can_split(amount, cd.interest_rate, decimals) {
        return Err(Error::ArithmeticOverflow);
    }
    let lock_fits = match cd.claim_block_days.checked_mul(SECONDS_IN_DAY) {
        Some(lock) => now.checked_add(lock).is_some(),
        None => false,
    };
    if !lock_fits {
        return Err(Error::ArithmeticOverflow);
    }
    let amounts = Amount::from_investment(e, &amount, &cd.interest_rate, decimals);
    let invested = amounts.get_invested_amount();
    match validate_investment_goal(balances.received_so_far, invested, cd.goal) {
        Err(err) => {
            return Err(err);
        },
        Ok(()) => {},
    }
    let m = LedgerMove::Investment {
        commission: amounts.amount_to_commission,
        reserve: amounts.amount_to_reserve_fund,
        invest: amounts.amount_to_invest,
    };
    if !balances.can_apply(&m) {
        return Err(Error::ArithmeticOverflow);
    }
    let mut updated = *balances;
    updated.recalculate_from_investment(&amounts);
    proof {
        if balances.is_conserved() {
            lemma_move_conserves(*balances, m);
        }
    }
    let state = if updated.received_so_far >= cd.goal {
        State::FundsReached
    } else {
        cd.state
    };
    Ok(InvestmentPlan { amounts, balances: updated, state })
}

/// Outcome of paying `amount` from the reserve at time `now` for an
/// investment already advanced to `paid`.
pub open spec fn payment_completion(
    paid: Investment,
    amount: i128,
    balances: ContractBalance,
    now: u64,
) -> Result<PaymentPlan, Error> {
    if amount > balances.reserve {
        Err(Error::ContractInsufficientBalance)
    } else if !balances.fits(LedgerMove::PaymentToInvestor(amount)) {
        Err(Error::ArithmeticOverflow)
    } else if next_claim_ts(paid, now) > u64::MAX {
        Err(Error::ArithmeticOverflow)
    } else {
        Ok(
            PaymentPlan {
                investment: paid,
                balances: balances.after(LedgerMove::PaymentToInvestor(amount)),
                claim: Claim {
                    next_transfer_ts: next_claim_ts(paid, now) as u64,
                    amount_to_pay: paid.regular_payment,
                },
                amount,
            },
        )
    }
}

fn complete_payment(paid: Investment, amount: i128, balances: &ContractBalance, now: u64) -> (r:
    Result<PaymentPlan, Error>)
    ensures
        r == payment_completion(paid, amount, *balances, now),
        r is Ok && balances.is_conserved() ==> r->Ok_0.balances.is_conserved(),
{
    match validate_reserve_balance(amount, balances) {
        Err(err) => {
            return Err(err);
        },
        Ok(()) => {},
    }
    let m = LedgerMove::PaymentToInvestor(amount);
    if !balances.can_apply(&m) {
        return Err(Error::ArithmeticOverflow);
    }
    let claim_fits = if paid.last_transfer_ts > 0 {
        paid.last_transfer_ts.checked_add(SECONDS_IN_MONTH).is_some()
    } else {
        now.checked_add(SECONDS_IN_MONTH).is_some()
    };
    if !claim_fits {
        return Err(Error::ArithmeticOverflow);
    }
    let mut updated = *balances;
    updated.recalculate_from_payment_to_investor(&amount);
    proof {
        if balances.is_conserved() {
            lemma_move_conserves(*balances, m);
        }
    }
    let claim = calculate_next_claim(&paid, now);
    Ok(PaymentPlan { investment: paid, balances: updated, claim, amount })
}

/// Outcome of a payment of one period made by the administrator at time `now`.
pub open spec fn investor_payment_outcome(
    cd: ContractData,
    investment: Investment,
    balances: ContractBalance,
    now: u64,
) -> Result<PaymentPlan, Error> {
    match investment_payment_check(now, investment) {
        Err(e) => Err(e),
        Ok(_) => if !investment.payments_fit(cd, 1) {
            Err(Error::ArithmeticOverflow)
        } else {
            payment_completion(
                investment.after_payments(cd, 1, now),
                investment.transfer_amount(cd, 1) as i128,
                balances,
                now,
            )
        },
    }
}

/// Decides a payment of one period made by the administrator at time `now`.
pub fn plan_investor_payment(
    cd: &ContractData,
    investment: &Investment,
    balances: &ContractBalance,
    now: u64,
) -> (r: Result<PaymentPlan, Error>)
    ensures
        r == investor_payment_outcome(*cd, *investment, *balances, now),
        r is Ok && balances.is_conserved() ==> r->Ok_0.balances.is_conserved(),
        r is Ok && investment.wf(*cd) ==> r->Ok_0.investment.wf(*cd),
        r is Ok ==> r->Ok_0.investment.status == InvestmentStatus::CashFlowing
            || r->Ok_0.investment.status == InvestmentStatus::Finished,
{
    match validate_investment_payment(now, investment) {
        Err(err) => {
            return Err(err);
        },
        Ok(()) => {},
    }
    if !investment.can_pay(cd, 1) {
        return Err(Error::ArithmeticOverflow);
    }
    let mut paid = *investment;
    let amount = paid.process_investment_payment(cd, now);
    complete_payment(paid, amount, balances, now)
}

/// Outcome of an investor's claim at time `now` of every period due.
pub open spec fn claim_outcome(
    cd: ContractData,
    investment: Investment,
    balances: ContractBalance,
    now: u64,
) -> Result<PaymentPlan, Error> {
    match claim_check(now, investment) {
        Err(e) => Err(e),
        Ok(_) => if !claim_time_valid(investment, cd.return_months, now) {
            Err(Error::ArithmeticOverflow)
        } else {
            let n = claimable_periods(investment, cd.return_months, now);
            if n == 0 {
                Err(Error::AddressInvestmentNextTransferNotClaimableYet)
            } else if !investment.payments_fit(cd, n as nat) {
                Err(Error::ArithmeticOverflow)
            } else {
                payment_completion(
                    investment.after_payments(cd, n as nat, now),
                    investment.transfer_amount(cd, n as nat) as i128,
                    balances,
                    now,
                )
            }
        },
    }
}

/// Decides an investor's claim at time `now` of every period due.
pub fn plan_claim(
    cd: &ContractData,
    investment: &Investment,
    balances: &ContractBalance,
    now: u64,
) -> (r: Result<PaymentPlan, Error>)
    ensures
        r == claim_outcome(*cd, *investment, *balances, now),
        r is Ok && balances.is_conserved() ==> r->Ok_0.balances.is_conserved(),
        r is Ok && investment.wf(*cd) ==> r->Ok_0.investment.wf(*cd),
        r is Ok ==> r->Ok_0.investment.status == InvestmentStatus::CashFlowing
            || r->Ok_0.investment.status == InvestmentStatus::Finished,
{
    match validate_claim(now, investment) {
        Err(err) => {
            return Err(err);
        },
        Ok(()) => {},
    }
    let time_valid = investment.payments_transferred <= cd.return_months && if investment.last_transfer_ts
        == 0 {
        investment.claimable_ts <= now
    } else {
        investment.last_transfer_ts <= now
    };
    if !time_valid {
        return Err(Error::ArithmeticOverflow);
    }
    let num_payments = calculate_claimable_payments(investment, cd.return_months, now);
    if num_payments == 0 {
        return Err(Error::AddressInvestmentNextTransferNotClaimableYet);
    }
    if !investment.can_pay(cd, num_payments) {
        return Err(Error::ArithmeticOverflow);
    }
    let mut paid = *investment;
    let amount = paid.process_multiple_payments(cd, num_payments, now);
    complete_payment(paid, amount, balances, now)
}

/// Outcome of a withdrawal of `amount` from the project bucket.
pub open spec fn withdrawal_outcome(balances: ContractBalance, amount: i128) -> Result<
    ContractBalance,
    Error,
> {
    if balances.project < amount {
        Err(Error::ContractInsufficientBalance)
    } else if !balances.fits(LedgerMove::CompanyWithdrawal(amount)) {
        Err(Error::ArithmeticOverflow)
    } else {
        Ok(balances.after(LedgerMove::CompanyWithdrawal(amount)))
    }
}

/// Decides a withdrawal of `amount` from the project bucket; it may take all of it.
pub fn plan_withdrawal(balances: &ContractBalance, amount: i128) -> (r: Result<
    ContractBalance,
    Error,
>)
    ensures
        r == withdrawal_outcome(*balances, amount),
        r is Ok && balances.is_conserved() ==> r->Ok_0.is_conserved(),
{
    match validate_withdrawal(amount, balances.project) {
        Err(err) => {
            return Err(err);
        },
        Ok(()) => {},
    }
    let m = LedgerMove::CompanyWithdrawal(amount);
    if !balances.can_apply(&m) {
        return Err(Error::ArithmeticOverflow);
    }
    let mut updated = *balances;
    updated.recalculate_from_company_withdrawal(&amount);
    proof {
        if balances.is_conserved() {
            lemma_move_conserves(*balances, m);
        }
    }
    Ok(updated)
}

/// Outcome of a contribution of `amount` to the reserve by a company holding `owner_balance`.
pub open spec fn company_transfer_outcome(
    balances: ContractBalance,
    owner_balance: i128,
    amount: i128,
) -> Result<ContractBalance, Error> {
    if owner_balance < amount {
        Err(Error::AddressInsufficientBalance)
    } else if !balances.fits(LedgerMove::CompanyContribution(amount)) {
        Err(Error::ArithmeticOverflow)
    } else {
        Ok(balances.after(LedgerMove::CompanyContribution(amount)))
    }
}

/// Decides a contribution of `amount` to the reserve by a company holding `owner_balance`.
pub fn plan_company_transfer(balances: &ContractBalance, owner_balance: i128, amount: i128) -> (r:
    Result<ContractBalance, Error>)
    ensures
        r == company_transfer_outcome(*balances, owner_balance, amount),
        r is Ok && balances.is_conserved() ==> r->Ok_0.is_conserved(),
{
    match validate_company_transfer(owner_balance, amount) {
        Err(err) => {
            return Err(err);
        },
        Ok(()) => {},
    }
    let m = LedgerMove::CompanyContribution(amount);
    if !balances.can_apply(&m) {
        return Err(Error::ArithmeticOverflow);
    }
    let mut updated = *balances;
    updated.recalculate_from_company_contribution(&amount);
    proof {
        if balances.is_conserved() {
            lemma_move_conserves(*balances, m);
        }
    }
    Ok(updated)
}

/// Outcome of moving `amount` from the project bucket to the reserve.
pub open spec fn move_to_reserve_outcome(balances: ContractBalance, amount: i128) -> Result<
    ContractBalance,
    Error,
> {
    if balances.project <= amount {
        Err(Error::ProjectBalanceInsufficientAmount)
    } else if !balances.fits(LedgerMove::ProjectToReserve(amount)) {
        Err(Error::ArithmeticOverflow)
    } else {
        Ok(balances.after(LedgerMove::ProjectToReserve(amount)))
    }
}

/// Decides moving `amount` from the project bucket to the reserve; the project
/// bucket must hold strictly more than `amount`.
pub fn plan_move_to_reserve(balances: &ContractBalance, amount: i128) -> (r: Result<
    ContractBalance,
    Error,
>)
    ensures
        r == move_to_reserve_outcome(*balances, amount),
        r is Ok && balances.is_conserved() ==> r->Ok_0.is_conserved(),
{
    match validate_move_to_reserve(amount, balances.project) {
        Err(err) => {
            return Err(err);
        },
        Ok(()) => {},
    }
    let m = LedgerMove::ProjectToReserve(amount);
    if !balances.can_apply(&m) {
        return Err(Error::ArithmeticOverflow);
    }
    let mut updated = *balances;
    updated.recalculate_from_project_to_reserver_movement(&amount);
    proof {
        if balances.is_conserved() {
            lemma_move_conserves(*balances, m);
        }
    }
    Ok(updated)
}

/// A finished investment accepts no further payment, neither from the
/// administrator nor by the investor's claim, whatever the time and balances.
pub proof fn lemma_finished_rejects_payments(
    cd: ContractData,
    investment: Investment,
    balances: ContractBalance,
    now: u64,
)
    requires
        investment.status == InvestmentStatus::Finished,
    ensures
        investor_payment_outcome(cd, investment, balances, now) is Err,
        claim_outcome(cd, investment, balances, now) is Err,
{
}

} // verus!
