use crate::balance::ContractBalance;
use crate::constants::SECONDS_IN_MONTH;
use crate::data::{ContractData, State};
use crate::investment::{Investment, InvestmentStatus};
use vstd::prelude::*;

verus! {

/// Why an operation was rejected.
#[derive(Clone, Copy, Debug, PartialEq, Eq, PartialOrd, Ord, Structural)]
pub enum Error {
    AddressInsufficientBalance,
    ContractInsufficientBalance,
    AmountLessThanMinimum,
    InterestRateMustBeGreaterThanZero,
    GoalMustBeGreaterThanZero,
    UnsupportedReturnType,
    ReturnMonthsMustBeGreaterThanZero,
    MinPerInvestmentMustBeGreaterThanZero,
    AddressHasNotInvested,
    AddressInvestmentIsNotClaimableYet,
    AddressInvestmentIsFinished,
    AddressInvestmentNextTransferNotClaimableYet,
    ProjectBalanceInsufficientAmount,
    RecipientCannotReceivePayment,
    InvalidPaymentData,
    WouldExceedGoal,
    GoalAlreadyReached,
    AmountToInvestMustBeGreaterThanZero,
    /// A result would not fit its integer type.
    ArithmeticOverflow,
}

/// Outcome of the checks on the construction parameters, in their order.
pub open spec fn constructor_params_check(
    i_rate: u32,
    goal: i128,
    return_months: u32,
    min_per_investment: i128,
) -> Result<(), Error> {
    if i_rate == 0 {
        Err(Error::InterestRateMustBeGreaterThanZero)
    } else if goal <= 0 {
        Err(Error::GoalMustBeGreaterThanZero)
    } else if return_months == 0 {
        Err(Error::ReturnMonthsMustBeGreaterThanZero)
    } else if min_per_investment <= 0 {
        Err(Error::MinPerInvestmentMustBeGreaterThanZero)
    } else {
        Ok(())
    }
}

/// Checks the construction parameters: rate, goal, months and minimum all positive.
pub fn validate_constructor_params(
    i_rate: u32,
    goal: i128,
    return_months: u32,
    min_per_investment: i128,
) -> (r: Result<(), Error>)
    ensures
        r == constructor_params_check(i_rate, goal, return_months, min_per_investment),
{
    if !(i_rate > 0) {
        return Err(Error::InterestRateMustBeGreaterThanZero);
    }
    if !(goal > 0) {
        return Err(Error::GoalMustBeGreaterThanZero);
    }
    if !(return_months > 0) {
        return Err(Error::ReturnMonthsMustBeGreaterThanZero);
    }
    if !(min_per_investment > 0) {
        return Err(Error::MinPerInvestmentMustBeGreaterThanZero);
    }
    Ok(())
}

/// Outcome of the checks before a payment made by the administrator at time `now`.
pub open spec fn investment_payment_check(now: u64, investment: Investment) -> Result<(), Error> {
    if now < investment.claimable_ts {
        Err(Error::AddressInvestmentIsNotClaimableYet)
    } else if investment.status == InvestmentStatus::Finished {
        Err(Error::AddressInvestmentIsFinished)
    } else if !(investment.last_transfer_ts == 0 || now - investment.last_transfer_ts
        >= SECONDS_IN_MONTH) {
        Err(Error::AddressInvestmentNextTransferNotClaimableYet)
    } else {
        Ok(())
    }
}

/// Checks that an investment can be paid by the administrator at time `now`:
/// its lock has ended, it is not finished, and a month has passed since its
/// last payment.
pub fn validate_investment_payment(now: u64, investment: &Investment) -> (r: Result<(), Error>)
    ensures
        r == investment_payment_check(now, *investment),
{
    if !(now >= investment.claimable_ts) {
        return Err(Error::AddressInvestmentIsNotClaimableYet);
    }
    if !(investment.status != InvestmentStatus::Finished) {
        return Err(Error::AddressInvestmentIsFinished);
    }
    if !(investment.last_transfer_ts == 0 || (now >= investment.last_transfer_ts && now
        - investment.last_transfer_ts >= SECONDS_IN_MONTH)) {
        return Err(Error::AddressInvestmentNextTransferNotClaimableYet);
    }
    Ok(())
}

/// Checks that the reserve covers a transfer of `amount_to_transfer`.
pub fn validate_reserve_balance(amount_to_transfer: i128, contract_balances: &ContractBalance) -> (r:
    Result<(), Error>)
    ensures
        r == (if amount_to_transfer <= contract_balances.reserve {
            Ok(())
        } else {
            Err(Error::ContractInsufficientBalance)
        }),
{
    if !(amount_to_transfer <= contract_balances.reserve) {
        return Err(Error::ContractInsufficientBalance);
    }
    Ok(())
}

/// Outcome of the checks on a new investment, in their order.
pub open spec fn investment_check(
    amount: i128,
    contract_data: ContractData,
    investor_balance: i128,
) -> Result<(), Error> {
    if amount < contract_data.min_per_investment {
        Err(Error::AmountLessThanMinimum)
    } else if contract_data.state == State::FundsReached {
        Err(Error::GoalAlreadyReached)
    } else if investor_balance < amount {
        Err(Error::AddressInsufficientBalance)
    } else if amount <= 0 {
        Err(Error::AmountToInvestMustBeGreaterThanZero)
    } else {
        Ok(())
    }
}

/// Checks a new investment of `amount` by an investor holding `investor_balance`.
pub fn validate_investment(amount: i128, contract_data: &ContractData, investor_balance: i128) -> (r:
    Result<(), Error>)
    ensures
        r == investment_check(amount, *contract_data, investor_balance),
{
    if !(amount >= contract_data.min_per_investment) {
        return Err(Error::AmountLessThanMinimum);
    }
    if !(contract_data.state != State::FundsReached) {
        return Err(Error::GoalAlreadyReached);
    }
    if !(investor_balance >= amount) {
        return Err(Error::AddressInsufficientBalance);
    }
    if !(amount > 0) {
        return Err(Error::AmountToInvestMustBeGreaterThanZero);
    }
    Ok(())
}

/// Checks that investing `amount_to_invest` more keeps what was received within the goal.
pub fn validate_investment_goal(received_so_far: i128, amount_to_invest: i128, goal: i128) -> (r:
    Result<(), Error>)
    ensures
        r == (if received_so_far + amount_to_invest <= goal {
            Ok(())
        } else {
            Err(Error::WouldExceedGoal)
        }),
{
    let within_goal = match received_so_far.checked_add(amount_to_invest) {
        Some(total) => total <= goal,
        None => amount_to_invest < 0,
    };
    if !within_goal {
        return Err(Error::WouldExceedGoal);
    }
    Ok(())
}

/// Checks that the project balance covers a withdrawal of `amount`.
pub fn validate_withdrawal(amount: i128, project_balance: i128) -> (r: Result<(), Error>)
    ensures
        r == (if project_balance >= amount {
            Ok(())
        } else {
            Err(Error::ContractInsufficientBalance)
        }),
{
    if !(project_balance >= amount) {
        return Err(Error::ContractInsufficientBalance);
    }
    Ok(())
}

/// Checks that the company, holding `owner_balance`, can contribute `amount`.
pub fn validate_company_transfer(owner_balance: i128, amount: i128) -> (r: Result<(), Error>)
    ensures
        r == (if owner_balance >= amount {
            Ok(())
        } else {
            Err(Error::AddressInsufficientBalance)
        }),
{
    if !(owner_balance >= amount) {
        return Err(Error::AddressInsufficientBalance);
    }
    Ok(())
}

/// Checks that the project balance exceeds `amount`, strictly, before moving it to the reserve.
pub fn validate_move_to_reserve(amount: i128, project_balance: i128) -> (r: Result<(), Error>)
    ensures
        r == (if project_balance > amount {
            Ok(())
        } else {
            Err(Error::ProjectBalanceInsufficientAmount)
        }),
{
    if !(project_balance > amount) {
        return Err(Error::ProjectBalanceInsufficientAmount);
    }
    Ok(())
}

/// Outcome of the checks before an investor claims at time `now`.
pub open spec fn claim_check(now: u64, investment: Investment) -> Result<(), Error> {
    if now < investment.claimable_ts {
        Err(Error::AddressInvestmentIsNotClaimableYet)
    } else if investment.status == InvestmentStatus::Finished {
        Err(Error::AddressInvestmentIsFinished)
    } else {
        Ok(())
    }
}

/// Checks that an investor can claim at time `now`: the lock has ended and
/// the investment is not finished.
pub fn validate_claim(now: u64, investment: &Investment) -> (r: Result<(), Error>)
    ensures
        r == claim_check(now, *investment),
{
    if !(now >= investment.claimable_ts) {
        return Err(Error::AddressInvestmentIsNotClaimableYet);
    }
    if !(investment.status != InvestmentStatus::Finished) {
        return Err(Error::AddressInvestmentIsFinished);
    }
    Ok(())
}

} // verus!
