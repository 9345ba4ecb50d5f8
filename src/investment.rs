use crate::balance::{
    lemma_pow10_positive, split_fits, split_spec, token_scale, wad_amount, Amount,
    CalculateAmounts, in_i128, reserve_rate_wad, add_fits,
};
use crate::constants::SECONDS_IN_DAY;
use crate::data::{ContractData, FromNumber};
use soroban_sdk::Env;
use vstd::prelude::*;

verus! {

/// Lifecycle of an investment: locked or claimable at first, cash-flowing once
/// paid, finished after the last period.
#[derive(Clone, Copy, Debug, PartialEq, Eq, Structural)]
pub enum InvestmentStatus {
    Blocked,
    Claimable,
    CashFlowing,
    Finished,
}

/// How an investment returns money: principal and interest amortised evenly
/// (`ReverseLoan`), or interest each period and the principal at the end (`Coupon`).
#[derive(Clone, Copy, Debug, PartialEq, Eq, Structural)]
pub enum InvestmentReturnType {
    ReverseLoan,
    Coupon,
}

impl FromNumber for InvestmentReturnType {
    open spec fn from_number_spec(number: u32) -> Option<InvestmentReturnType> {
        if number == 1 {
            Some(InvestmentReturnType::ReverseLoan)
        } else if number == 2 {
            Some(InvestmentReturnType::Coupon)
        } else {
            None
        }
    }

    fn from_number(number: u32) -> (r: Option<InvestmentReturnType>) {
        match number {
            1 => Some(InvestmentReturnType::ReverseLoan),
            2 => Some(InvestmentReturnType::Coupon),
            _ => None,
        }
    }
}

/// Division truncated toward zero, as integer division in Rust, for `b > 0`.
pub open spec fn tdiv(a: int, b: int) -> int {
    if a >= 0 {
        a / b
    } else {
        -((-a) / b)
    }
}

/// Interest on `principal` at `rate` (hundredths of a per cent): two successive
/// truncated divisions by 100.
pub open spec fn interest_of(principal: int, rate: int) -> int {
    tdiv(tdiv(principal * rate, 100), 100)
}

/// The payment due each period.
pub open spec fn regular_payment_of(
    interest: int,
    total: int,
    months: int,
    return_type: InvestmentReturnType,
) -> int {
    match return_type {
        InvestmentReturnType::Coupon => tdiv(interest, months),
        InvestmentReturnType::ReverseLoan => tdiv(total, months),
    }
}

/// An investment's state before its first payment: blocked while a claim lock applies.
pub open spec fn initial_status(claim_block_days: u64) -> InvestmentStatus {
    if claim_block_days > 0 {
        InvestmentStatus::Blocked
    } else {
        InvestmentStatus::Claimable
    }
}

/// One investor's position and its repayment progress.
#[derive(Clone, Copy, Debug, PartialEq, Eq, Structural)]
pub struct Investment {
    pub deposited: i128,
    pub commission: i128,
    pub accumulated_interests: i128,
    pub total: i128,
    pub claimable_ts: u64,
    pub last_transfer_ts: u64,
    pub status: InvestmentStatus,
    pub regular_payment: i128,
    pub paid: i128,
    pub payments_transferred: u32,
    pub token_id: u32,
}

/// Whether an investment of `amount` can be created under `cd` at time `now`.
pub open spec fn can_open(cd: ContractData, amount: int, decimals: nat, now: u64) -> bool {
    &&& split_fits(amount, cd.interest_rate as int, decimals)
    &&& cd.return_months > 0
    &&& now + cd.claim_block_days * SECONDS_IN_DAY <= u64::MAX
}

impl Investment {
    /// The investment created from a deposit of `amount` at time `now`.
    pub open spec fn opened(
        cd: ContractData,
        amount: int,
        decimals: nat,
        token_id: u32,
        now: u64,
    ) -> Investment {
        let amounts = split_spec(amount, cd.interest_rate as int, decimals);
        let deposited = amounts.amount_to_invest + amounts.amount_to_reserve_fund;
        let interest = interest_of(deposited, cd.interest_rate as int);
        let total = deposited + interest;
        Investment {
            deposited: deposited as i128,
            commission: amounts.amount_to_commission,
            accumulated_interests: interest as i128,
            total: total as i128,
            claimable_ts: (now + cd.claim_block_days * SECONDS_IN_DAY) as u64,
            last_transfer_ts: 0,
            status: initial_status(cd.claim_block_days),
            regular_payment: regular_payment_of(interest, total, cd.return_months as int, cd.return_type) as i128,
            paid: 0,
            payments_transferred: 0,
            token_id,
        }
    }

    /// Repayment progress consistent with the schedule of `cd`: never more
    /// periods paid than it has, finished exactly when all are paid, and in
    /// one of the initial states exactly while none is.
    pub open spec fn wf(self, cd: ContractData) -> bool {
        &&& cd.return_months > 0
        &&& self.payments_transferred <= cd.return_months
        &&& (self.status == InvestmentStatus::Finished <==> self.payments_transferred
            == cd.return_months)
        &&& (self.payments_transferred == 0 <==> (self.status == InvestmentStatus::Blocked
            || self.status == InvestmentStatus::Claimable))
    }

    /// Whether `n` more periods complete the schedule.
    pub open spec fn completes(self, cd: ContractData, n: nat) -> bool {
        self.payments_transferred + n >= cd.return_months
    }

    /// The principal returned with the last period: the whole deposit for a
    /// coupon, nothing for a reverse loan.
    pub open spec fn bullet(self, cd: ContractData, n: nat) -> int {
        if self.completes(cd, n) && cd.return_type == InvestmentReturnType::Coupon {
            self.deposited as int
        } else {
            0
        }
    }

    /// What is transferred for `n` periods paid at once.
    pub open spec fn transfer_amount(self, cd: ContractData, n: nat) -> int {
        self.regular_payment * n + self.bullet(cd, n)
    }

    /// The investment after `n` periods paid at once at time `now`.
    pub open spec fn after_payments(self, cd: ContractData, n: nat, now: u64) -> Investment {
        Investment {
            status: if self.completes(cd, n) {
                InvestmentStatus::Finished
            } else {
                InvestmentStatus::CashFlowing
            },
            paid: (self.paid + self.transfer_amount(cd, n)) as i128,
            last_transfer_ts: now,
            payments_transferred: (self.payments_transferred + n) as u32,
            ..self
        }
    }

    /// Whether paying `n` periods at once stays within the integer types.
    pub open spec fn payments_fit(self, cd: ContractData, n: nat) -> bool {
        &&& self.payments_transferred + n <= u32::MAX
        &&& in_i128(self.regular_payment * n)
        &&& in_i128(self.paid + self.regular_payment * n)
        &&& in_i128(self.transfer_amount(cd, n))
        &&& in_i128(self.paid + self.transfer_amount(cd, n))
    }

    /// The investment after `n` single periods paid one after another at time `now`.
    pub open spec fn after_single_payments(self, cd: ContractData, n: nat, now: u64) -> Investment
        decreases n,
    {
        if n == 0 {
            self
        } else {
            self.after_single_payments(cd, (n - 1) as nat, now).after_payments(cd, 1, now)
        }
    }

    /// What `n` single periods paid one after another transfer in all.
    pub open spec fn single_payments_total(self, cd: ContractData, n: nat, now: u64) -> int
        decreases n,
    {
        if n == 0 {
            0
        } else {
            self.single_payments_total(cd, (n - 1) as nat, now) + self.after_single_payments(
                cd,
                (n - 1) as nat,
                now,
            ).transfer_amount(cd, 1)
        }
    }

    /// Whether `n` periods can be paid at once, see [`Investment::payments_fit`].
    pub fn can_pay(&self, cd: &ContractData, n: u32) -> (r: bool)
        ensures
            r == self.payments_fit(*cd, n as nat),
    {
        if self.payments_transferred.checked_add(n).is_none() {
            return false;
        }
        let regular = match self.regular_payment.checked_mul(n as i128) {
            Some(v) => v,
            None => {
                return false;
            },
        };
        let completes = self.payments_transferred + n >= cd.return_months;
        let bullet: i128 = if completes && cd.return_type == InvestmentReturnType::Coupon {
            self.deposited
        } else {
            0
        };
        if !add_fits(self.paid, regular) || !add_fits(regular, bullet) {
            return false;
        }
        add_fits(self.paid, regular + bullet)
    }

    /// Creates the investment for a deposit of `amount` made at time `now`.
    pub fn new(
        env: &Env,
        cd: &ContractData,
        amount: &i128,
        decimals: u8,
        token_id: u32,
        now: u64,
    ) -> (r: Self)
        requires
            can_open(*cd, *amount as int, decimals as nat, now),
        ensures
            r == Investment::opened(*cd, *amount as int, decimals as nat, token_id, now),
            r.wf(*cd),
    {
        let amounts: Amount = Amount::from_investment(env, amount, &cd.interest_rate, decimals);
        proof {
            let f = token_scale(decimals as nat);
            lemma_pow10_positive((18 - decimals) as nat);
            assert(*amount as int <= wad_amount(*amount as int, decimals as nat) * reserve_rate_wad()
                / 50_000_000_000_000_000) by (nonlinear_arith)
                requires
                    wad_amount(*amount as int, decimals as nat) == *amount as int * f,
                    *amount > 0,
                    f >= 1,
                    reserve_rate_wad() == 50_000_000_000_000_000,
            ;
        }
        let real_amount = amounts.amount_to_invest + amounts.amount_to_reserve_fund;
        proof {
            vstd::arithmetic::div_mod::lemma_div_is_ordered(
                wad_amount(*amount as int, decimals as nat) * reserve_rate_wad(),
                i128::MAX as int,
                50_000_000_000_000_000,
            );
            let rate = cd.interest_rate as int;
            assert(-200_000_000_000_000_000_000 <= real_amount <= 4_000_000_000_000_000_000_000);
            assert(-1_000_000_000_000_000_000_000_000_000_000 <= real_amount * rate
                <= 20_000_000_000_000_000_000_000_000_000_000) by (nonlinear_arith)
                requires
                    -200_000_000_000_000_000_000 <= real_amount <= 4_000_000_000_000_000_000_000,
                    0 <= rate <= u32::MAX,
            ;
        }
        let current_interest = (real_amount * cd.interest_rate as i128) / 100 / 100;
        let total_gains = real_amount + current_interest;
        let status = Self::calculate_initial_status(&cd.claim_block_days);
        let claimable_ts = now + cd.claim_block_days * SECONDS_IN_DAY;
        let regular_payment = Self::calculate_regular_payment(
            &current_interest,
            &total_gains,
            &cd.return_months,
            &cd.return_type,
        );
        Investment {
            deposited: real_amount,
            commission: amounts.amount_to_commission,
            accumulated_interests: current_interest,
            total: total_gains,
            claimable_ts,
            last_transfer_ts: 0_u64,
            status,
            regular_payment,
            paid: 0_i128,
            payments_transferred: 0_u32,
            token_id,
        }
    }

    fn calculate_initial_status(claim_block_days: &u64) -> (r: InvestmentStatus)
        ensures
            r == initial_status(*claim_block_days),
    {
        if *claim_block_days > 0 {
            InvestmentStatus::Blocked
        } else {
            InvestmentStatus::Claimable
        }
    }

    fn calculate_regular_payment(
        interest_gains: &i128,
        total_gains: &i128,
        return_months: &u32,
        return_type: &InvestmentReturnType,
    ) -> (r: i128)
        requires
            *return_months > 0,
        ensures
            r == regular_payment_of(
                *interest_gains as int,
                *total_gains as int,
                *return_months as int,
                *return_type,
            ),
    {
        match return_type {
            InvestmentReturnType::Coupon => *interest_gains / *return_months as i128,
            InvestmentReturnType::ReverseLoan => *total_gains / *return_months as i128,
        }
    }

    /// Pays one period at time `now` and returns the amount to transfer; the
    /// last period of a coupon also returns the principal.
    pub fn process_investment_payment(&mut self, contract_data: &ContractData, now: u64) -> (r:
        i128)
        requires
            old(self).payments_fit(*contract_data, 1),
        ensures
            *final(self) == old(self).after_payments(*contract_data, 1, now),
            r == old(self).transfer_amount(*contract_data, 1),
    {
        let mut amount_to_transfer: i128;
        if self.status != InvestmentStatus::CashFlowing {
            self.status = InvestmentStatus::CashFlowing;
        }
        self.paid = self.paid + self.regular_payment;
        self.last_transfer_ts = now;
        self.payments_transferred = self.payments_transferred + 1;
        amount_to_transfer = self.regular_payment;
        let is_last_payment = self.payments_transferred >= contract_data.return_months;
        if is_last_payment {
            self.status = InvestmentStatus::Finished;
            if contract_data.return_type == InvestmentReturnType::Coupon {
                self.paid = self.paid + self.deposited;
                amount_to_transfer = amount_to_transfer + self.deposited;
            }
        }
        amount_to_transfer
    }

    /// Pays `num_payments` periods at once at time `now` and returns the
    /// amount to transfer; reaching the last period of a coupon also returns
    /// the principal.
    pub fn process_multiple_payments(
        &mut self,
        contract_data: &ContractData,
        num_payments: u32,
        now: u64,
    ) -> (r: i128)
        requires
            old(self).payments_fit(*contract_data, num_payments as nat),
        ensures
            *final(self) == old(self).after_payments(*contract_data, num_payments as nat, now),
            r == old(self).transfer_amount(*contract_data, num_payments as nat),
    {
        if self.status != InvestmentStatus::CashFlowing {
            self.status = InvestmentStatus::CashFlowing;
        }
        let mut total_amount: i128 = self.regular_payment * num_payments as i128;
        self.paid = self.paid + total_amount;
        self.last_transfer_ts = now;
        self.payments_transferred = self.payments_transferred + num_payments;
        let is_last_payment = self.payments_transferred >= contract_data.return_months;
        if is_last_payment {
            self.status = InvestmentStatus::Finished;
            if contract_data.return_type == InvestmentReturnType::Coupon {
                self.paid = self.paid + self.deposited;
                total_amount = total_amount + self.deposited;
            }
        }
        total_amount
    }
}

/// Paying `n` periods at once, for `n` from one up to the periods that remain,
/// leaves the investment exactly as paying them one at a time at the same
/// moment would, and transfers the same total.
pub proof fn lemma_batched_payments_match_single(
    inv: Investment,
    cd: ContractData,
    n: nat,
    now: u64,
)
    requires
        1 <= n,
        inv.payments_transferred + n <= cd.return_months,
        inv.payments_fit(cd, n),
    ensures
        inv.after_single_payments(cd, n, now) == inv.after_payments(cd, n, now),
        inv.single_payments_total(cd, n, now) == inv.transfer_amount(cd, n),
{
    lemma_single_payments_prefix(inv, cd, n, n, now);
}

/// The first `k` of `n` single payments agree with paying `k` periods at once.
proof fn lemma_single_payments_prefix(inv: Investment, cd: ContractData, n: nat, k: nat, now: u64)
    requires
        1 <= k <= n,
        inv.payments_transferred + n <= cd.return_months,
        inv.payments_fit(cd, n),
    ensures
        inv.after_single_payments(cd, k, now) == inv.after_payments(cd, k, now),
        inv.single_payments_total(cd, k, now) == inv.transfer_amount(cd, k),
    decreases k,
{
    let r = inv.regular_payment as int;
    let p = inv.paid as int;
    if k == 1 {
        assert(inv.after_single_payments(cd, 0, now) == inv);
        assert(inv.single_payments_total(cd, 0, now) == 0);
    } else {
        lemma_single_payments_prefix(inv, cd, n, (k - 1) as nat, now);
        let km = (k - 1) as int;
        assert(in_i128(p + r * km)) by (nonlinear_arith)
            requires
                in_i128(p),
                in_i128(p + r * n),
                0 <= km <= n,
        ;
        assert(r * km + r == r * k) by (nonlinear_arith)
            requires
                km + 1 == k,
        ;
        let prev = inv.after_payments(cd, (k - 1) as nat, now);
        assert(!inv.completes(cd, (k - 1) as nat));
        assert(prev.paid == p + r * km);
        assert(prev.after_payments(cd, 1, now) == inv.after_payments(cd, k, now));
    }
}

} // verus!
