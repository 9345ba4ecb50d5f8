use crate::investment::InvestmentReturnType;
use soroban_sdk::Address;
use vstd::prelude::*;

verus! {

/// A Soroban address, held as an opaque value.
#[verifier::external_type_specification]
#[verifier::external_body]
pub struct ExAddress(Address);

/// Conversion from a numeric code.
pub trait FromNumber: Sized {
    /// The value that the code `number` stands for, if any.
    spec fn from_number_spec(number: u32) -> Option<Self>;

    fn from_number(number: u32) -> (r: Option<Self>)
        ensures
            r == Self::from_number_spec(number),
    ;
}

/// Funding state of the contract: it accepts investments until the goal is reached.
#[derive(Clone, Copy, Debug, PartialEq, Eq, PartialOrd, Ord, Structural)]
pub enum State {
    Active,
    FundsReached,
}

/// The event that reports a new funding state.
#[derive(Clone, Copy, Debug, PartialEq, Eq, Structural)]
pub struct ContractStateUpdated {
    pub new_state: State,
}

impl State {
    /// The event that reports this state.
    pub fn updated_event(&self) -> (r: ContractStateUpdated)
        ensures
            r.new_state == *self,
    {
        ContractStateUpdated { new_state: *self }
    }
}

/// Parameters the contract is created with.
#[derive(Clone, Copy, Debug, PartialEq, Eq, Structural)]
pub struct InvestmentContractParams {
    pub i_rate: u32,
    pub claim_block_days: u64,
    pub goal: i128,
    pub return_type: u32,
    pub return_months: u32,
    pub min_per_investment: i128,
}

/// The contract's configuration and funding state.
pub struct ContractData {
    pub interest_rate: u32,
    pub claim_block_days: u64,
    pub token: Address,
    pub project_address: Address,
    pub state: State,
    pub return_type: InvestmentReturnType,
    pub return_months: u32,
    pub min_per_investment: i128,
    pub goal: i128,
}

impl ContractData {
    /// Configuration built from validated parameters, in the `Active` state.
    pub fn from_investment_contract_params(
        params: &InvestmentContractParams,
        token: Address,
        project_address: Address,
    ) -> (r: Self)
        requires
            InvestmentReturnType::from_number_spec(params.return_type) is Some,
        ensures
            r.interest_rate == params.i_rate,
            r.claim_block_days == params.claim_block_days,
            r.token == token,
            r.project_address == project_address,
            r.state == State::Active,
            Some(r.return_type) == InvestmentReturnType::from_number_spec(params.return_type),
            r.return_months == params.return_months,
            r.min_per_investment == params.min_per_investment,
            r.goal == params.goal,
    {
        let return_type = match InvestmentReturnType::from_number(params.return_type) {
            Some(t) => t,
            None => InvestmentReturnType::ReverseLoan,
        };
        ContractData {
            interest_rate: params.i_rate,
            claim_block_days: params.claim_block_days,
            token,
            project_address,
            state: State::Active,
            return_type,
            return_months: params.return_months,
            min_per_investment: params.min_per_investment,
            goal: params.goal,
        }
    }
}

/// Keys of the contract's stored records.
#[derive(Clone, Copy, Debug, PartialEq, Eq, Structural)]
pub enum DataKey {
    ContractData,
    Investment(u32),
    ClaimsMap,
    MultisigRequest,
    ContractBalances,
}

} // verus!
