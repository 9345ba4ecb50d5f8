use crate::constants::WAD_SCALE;
use soroban_sdk::Env;
use stellar_contract_utils::math::wad::Wad;
use vstd::prelude::*;

verus! {

/// The Soroban environment, carried through to the fixed-point conversions.
#[verifier::external_type_specification]
#[verifier::external_body]
pub struct ExEnv(Env);

/// Whole-unit amount at and below which the commission divisor stays at its lowest value.
const LOWER_AMOUNT_FOR_COMMISSION_REDUCTION: i128 = 100;

/// Smallest commission divisor, for the smallest deposits.
const LOWER_DIVISOR: u32 = 10;

/// Largest commission divisor, for the largest deposits.
const UPPER_DIVISOR: u32 = 60;

/// Whole units of deposit that raise the divisor by one step.
const AMOUNT_PER_COMMISSION_REDUCTION: i128 = 400;

/// Ten to the power `n`.
pub open spec fn pow10(n: nat) -> int
    decreases n,
{
    if n == 0 {
        1
    } else {
        10 * pow10((n - 1) as nat)
    }
}

/// Every power of ten is at least one.
pub proof fn lemma_pow10_positive(n: nat)
    ensures
        pow10(n) >= 1,
    decreases n,
{
    if n > 0 {
        lemma_pow10_positive((n - 1) as nat);
    }
}

/// Powers of ten grow with the exponent.
pub proof fn lemma_pow10_monotonic(m: nat, n: nat)
    requires
        m <= n,
    ensures
        pow10(m) <= pow10(n),
    decreases n,
{
    if m < n {
        lemma_pow10_monotonic(m, (n - 1) as nat);
        lemma_pow10_positive((n - 1) as nat);
    }
}

/// The commission divisor for a deposit of `amount` scaled units of a token with
/// `decimals` decimal places: 10 up to 100 whole units, then one more for every
/// further 400 whole units, never above 60.
pub open spec fn rate_denominator(amount: int, decimals: nat) -> int {
    let units = amount / pow10(decimals);
    if units <= 100 {
        10
    } else if 10 + (units - 100) / 400 > 60 {
        60
    } else {
        10 + (units - 100) / 400
    }
}

/// The commission divisor never falls as the deposit grows, and always lies
/// between 10 and 60.
pub proof fn lemma_rate_denominator_monotonic(a: int, b: int, decimals: nat)
    requires
        a <= b,
    ensures
        rate_denominator(a, decimals) <= rate_denominator(b, decimals),
        10 <= rate_denominator(a, decimals) <= 60,
        10 <= rate_denominator(b, decimals) <= 60,
{
    lemma_pow10_positive(decimals);
    let p = pow10(decimals);
    vstd::arithmetic::div_mod::lemma_div_is_ordered(a, b, p);
    vstd::arithmetic::div_mod::lemma_div_is_ordered(a / p - 100, b / p - 100, 400);
    if a / p > 100 {
        vstd::arithmetic::div_mod::lemma_div_pos_is_pos(a / p - 100, 400);
    }
    if b / p > 100 {
        vstd::arithmetic::div_mod::lemma_div_pos_is_pos(b / p - 100, 400);
    }
}

/// `10^n` as an `i128`, for `n` up to 38.
fn pow10_i128(n: u32) -> (r: i128)
    requires
        n <= 38,
    ensures
        r == pow10(n as nat),
{
    proof {
        reveal_with_fuel(pow10, 39);
        lemma_pow10_monotonic(n as nat, 38);
        assert(pow10(38) == 100_000_000_000_000_000_000_000_000_000_000_000_000int);
    }
    let mut r: i128 = 1;
    let mut i: u32 = 0;
    while i < n
        invariant
            i <= n <= 38,
            r == pow10(i as nat),
            pow10(n as nat) <= pow10(38),
            pow10(38) == 100_000_000_000_000_000_000_000_000_000_000_000_000int,
        decreases n - i,
    {
        proof {
            lemma_pow10_monotonic((i + 1) as nat, n as nat);
            assert(pow10((i + 1) as nat) == 10 * pow10(i as nat));
            lemma_pow10_positive(i as nat);
        }
        r = r * 10;
        i = i + 1;
    }
    r
}

/// Divisor applied to the nominal interest rate to get the commission rate of a deposit.
pub fn calculate_rate_denominator(amount: &i128, decimals: u32) -> (r: u32)
    ensures
        r == rate_denominator(*amount as int, decimals as nat),
        10 <= r <= 60,
{
    let amount = *amount;
    proof {
        lemma_pow10_positive(decimals as nat);
    }
    if amount <= 0 {
        proof {
            vstd::arithmetic::div_mod::lemma_div_is_ordered(amount as int, 0, pow10(decimals as nat));
        }
        return LOWER_DIVISOR;
    }
    if decimals > 38 {
        proof {
            reveal_with_fuel(pow10, 40);
            lemma_pow10_monotonic(39, decimals as nat);
            vstd::arithmetic::div_mod::lemma_small_div_converse(amount as int, pow10(decimals as nat));
            assert(amount as int / pow10(decimals as nat) == 0) by {
                vstd::arithmetic::div_mod::lemma_basic_div(amount as int, pow10(decimals as nat));
            }
        }
        return LOWER_DIVISOR;
    }
    let scale_factor = pow10_i128(decimals);
    let token_amount = amount / scale_factor;
    if token_amount <= LOWER_AMOUNT_FOR_COMMISSION_REDUCTION {
        return LOWER_DIVISOR;
    }
    let a = (token_amount - LOWER_AMOUNT_FOR_COMMISSION_REDUCTION) / AMOUNT_PER_COMMISSION_REDUCTION;
    if a > (UPPER_DIVISOR - LOWER_DIVISOR) as i128 {
        return UPPER_DIVISOR;
    }
    LOWER_DIVISOR + a as u32
}

/// Scale factor from a token amount with `decimals` decimal places to an
/// 18-decimal fixed-point value.
pub open spec fn token_scale(decimals: nat) -> int {
    pow10((18 - decimals) as nat)
}

/// The deposit as an 18-decimal fixed-point value.
pub open spec fn wad_amount(amount: int, decimals: nat) -> int {
    amount * token_scale(decimals)
}

/// The commission rate `i_rate / (divisor * 10_000)` as an 18-decimal fixed-point value.
pub open spec fn commission_rate_wad(i_rate: int, divisor: int) -> int {
    i_rate * WAD_SCALE / (divisor * 10_000)
}

/// The reserve rate, five per cent, as an 18-decimal fixed-point value.
pub open spec fn reserve_rate_wad() -> int {
    5 * WAD_SCALE / 100
}

/// Fixed-point product of the deposit and `rate`, brought back to token units;
/// each step truncates.
pub open spec fn portion_of(amount: int, decimals: nat, rate: int) -> int {
    wad_amount(amount, decimals) * rate / (WAD_SCALE as int) / token_scale(decimals)
}

/// Commission taken from a deposit.
pub open spec fn commission_of(amount: int, i_rate: int, decimals: nat) -> int {
    portion_of(amount, decimals, commission_rate_wad(i_rate, rate_denominator(amount, decimals)))
}

/// Part of a deposit that goes to the reserve.
pub open spec fn reserve_of(amount: int, decimals: nat) -> int {
    portion_of(amount, decimals, reserve_rate_wad())
}

/// A deposit that can be split: positive, of a token with at most 18 decimals,
/// and small enough that the fixed-point products fit in an `i128`.
pub open spec fn split_fits(amount: int, i_rate: int, decimals: nat) -> bool {
    &&& 0 < amount
    &&& decimals <= 18
    &&& wad_amount(amount, decimals) * commission_rate_wad(i_rate, rate_denominator(amount, decimals))
        <= i128::MAX
    &&& wad_amount(amount, decimals) * reserve_rate_wad() <= i128::MAX
}

/// The split of a deposit: commission and reserve first, the remainder to invest.
pub open spec fn split_spec(amount: int, i_rate: int, decimals: nat) -> Amount {
    let commission = commission_of(amount, i_rate, decimals);
    let reserve = reserve_of(amount, decimals);
    Amount {
        amount_to_invest: (amount - commission - reserve) as i128,
        amount_to_reserve_fund: reserve as i128,
        amount_to_commission: commission as i128,
    }
}

/// Relies on `Wad::from_token_amount`: for at most 18 decimals, the amount
/// multiplied by `10^(18 - decimals)` (it panics when that overflows).
#[verifier::external_body]
fn wad_from_token_amount(e: &Env, amount: i128, decimals: u8) -> (r: i128)
    requires
        decimals <= 18,
        i128::MIN <= amount * pow10((18 - decimals) as nat) <= i128::MAX,
    ensures
        r == amount * pow10((18 - decimals) as nat),
{
    Wad::from_token_amount(e, amount, decimals).raw()
}

/// Relies on `Wad::from_ratio`: `num * 10^18 / den`, truncated toward zero
/// (it panics on a zero denominator or an overflow).
#[verifier::external_body]
fn wad_from_ratio(e: &Env, num: i128, den: i128) -> (r: i128)
    requires
        0 <= num,
        0 < den,
        num * WAD_SCALE <= i128::MAX,
    ensures
        r == num * (WAD_SCALE as int) / (den as int),
{
    Wad::from_ratio(e, num, den).raw()
}

/// Relies on `Wad`'s `*`: `(a * b) / 10^18`, truncated toward zero (the
/// product itself must fit in an `i128`).
#[verifier::external_body]
fn wad_mul(a: i128, b: i128) -> (r: i128)
    requires
        0 <= a,
        0 <= b,
        a * b <= i128::MAX,
    ensures
        r == a * b / (WAD_SCALE as int),
{
    (Wad::from_raw(a) * Wad::from_raw(b)).raw()
}

/// Relies on `Wad::to_token_amount`: for at most 18 decimals, the raw value
/// divided by `10^(18 - decimals)`, truncated toward zero.
#[verifier::external_body]
fn wad_to_token_amount(e: &Env, w: i128, decimals: u8) -> (r: i128)
    requires
        decimals <= 18,
        0 <= w,
    ensures
        r == (w as int) / pow10((18 - decimals) as nat),
{
    Wad::from_raw(w).to_token_amount(e, decimals)
}

/// A fixed-point product brought back to token units is small and not negative.
proof fn lemma_portion_bounds(x: int, f: int)
    requires
        0 <= x <= i128::MAX,
        1 <= f,
    ensures
        0 <= x / (WAD_SCALE as int) / f <= (i128::MAX as int) / (WAD_SCALE as int),
{
    vstd::arithmetic::div_mod::lemma_div_is_ordered(x, i128::MAX as int, WAD_SCALE as int);
    vstd::arithmetic::div_mod::lemma_div_pos_is_pos(x, WAD_SCALE as int);
    vstd::arithmetic::div_mod::lemma_div_is_ordered_by_denominator(x / (WAD_SCALE as int), 1, f);
    vstd::arithmetic::div_mod::lemma_div_pos_is_pos(x / (WAD_SCALE as int), f);
}

/// Whether `a + b` is a value of `i128`.
pub fn add_fits(a: i128, b: i128) -> (r: bool)
    ensures
        r == in_i128(a + b),
{
    a.checked_add(b).is_some()
}

/// Whether `a - b` is a value of `i128`.
pub fn sub_fits(a: i128, b: i128) -> (r: bool)
    ensures
        r == in_i128(a - b),
{
    a.checked_sub(b).is_some()
}

/// Whether a deposit of `amount` at the nominal rate `i_rate` can be split.
pub fn can_split(amount: i128, i_rate: u32, decimals: u8) -> (r: bool)
    ensures
        r == split_fits(amount as int, i_rate as int, decimals as nat),
{
    if amount <= 0 || decimals > 18 {
        return false;
    }
    let scale = pow10_i128(18 - decimals as u32);
    let divisor = calculate_rate_denominator(&amount, decimals as u32);
    let commission_rate = (i_rate as i128) * WAD_SCALE / ((divisor as i128) * 10_000);
    let reserve_rate: i128 = 50_000_000_000_000_000;
    match amount.checked_mul(scale) {
        None => {
            proof {
                lemma_pow10_positive((18 - decimals) as nat);
                assert(amount * scale <= amount * scale * reserve_rate) by (nonlinear_arith)
                    requires
                        amount > 0,
                        scale >= 1,
                        reserve_rate >= 1,
                ;
            }
            false
        },
        Some(amount_wad) => {
            let fits_commission = amount_wad.checked_mul(commission_rate).is_some();
            let fits_reserve = amount_wad.checked_mul(reserve_rate).is_some();
            proof {
                lemma_pow10_positive((18 - decimals) as nat);
                vstd::arithmetic::div_mod::lemma_div_pos_is_pos(
                    i_rate as int * WAD_SCALE,
                    divisor as int * 10_000,
                );
                assert(amount_wad * commission_rate >= 0) by (nonlinear_arith)
                    requires
                        amount_wad >= 0,
                        commission_rate >= 0,
                ;
                assert(amount_wad * reserve_rate >= 0) by (nonlinear_arith)
                    requires
                        amount_wad >= 0,
                        reserve_rate >= 0,
                ;
            }
            fits_commission && fits_reserve
        },
    }
}

/// A deposit split into the part to invest in the project, the part kept in
/// reserve for investor payments, and the commission.
pub struct Amount {
    pub amount_to_invest: i128,
    pub amount_to_reserve_fund: i128,
    pub amount_to_commission: i128,
}

impl Amount {
    /// The principal of the deposit: what goes to the project and the reserve.
    pub fn get_invested_amount(&self) -> (r: i128)
        requires
            i128::MIN <= self.amount_to_invest + self.amount_to_reserve_fund <= i128::MAX,
        ensures
            r == self.amount_to_invest + self.amount_to_reserve_fund,
    {
        self.amount_to_invest + self.amount_to_reserve_fund
    }
}

/// Splitting a deposit by the commission schedule.
pub trait CalculateAmounts {
    /// Splits a deposit of `amount` scaled units at the nominal rate `i_rate`.
    fn from_investment(e: &Env, amount: &i128, i_rate: &u32, decimals: u8) -> (r: Amount)
        requires
            split_fits(*amount as int, *i_rate as int, decimals as nat),
        ensures
            r == split_spec(*amount as int, *i_rate as int, decimals as nat),
            r.amount_to_commission + r.amount_to_reserve_fund + r.amount_to_invest == *amount,
            0 <= r.amount_to_commission <= i128::MAX / WAD_SCALE,
            0 <= r.amount_to_reserve_fund <= i128::MAX / WAD_SCALE,
    ;
}

impl CalculateAmounts for Amount {
    fn from_investment(e: &Env, amount: &i128, i_rate: &u32, decimals: u8) -> (r: Amount) {
        let ghost a = *amount as int;
        let ghost d = decimals as nat;
        let rate_denominator = calculate_rate_denominator(amount, decimals as u32);
        proof {
            lemma_pow10_positive((18 - d) as nat);
            assert(wad_amount(a, d) <= wad_amount(a, d) * reserve_rate_wad()) by (nonlinear_arith)
                requires
                    wad_amount(a, d) >= 0,
                    reserve_rate_wad() >= 1,
            ;
            assert(wad_amount(a, d) >= 0) by (nonlinear_arith)
                requires
                    wad_amount(a, d) == a * token_scale(d),
                    a > 0,
                    token_scale(d) >= 1,
            ;
        }
        let amount_wad = wad_from_token_amount(e, *amount, decimals);
        let commission_rate = wad_from_ratio(e, *i_rate as i128, (rate_denominator as i128) * 10_000);
        let reserve_rate = wad_from_ratio(e, 5, 100);
        proof {
            vstd::arithmetic::div_mod::lemma_div_pos_is_pos(
                *i_rate as int * WAD_SCALE,
                rate_denominator as int * 10_000,
            );
        }
        let commission_wad = wad_mul(amount_wad, commission_rate);
        let reserve_wad = wad_mul(amount_wad, reserve_rate);
        proof {
            vstd::arithmetic::div_mod::lemma_div_pos_is_pos(amount_wad as int * commission_rate, WAD_SCALE as int);
            vstd::arithmetic::div_mod::lemma_div_pos_is_pos(amount_wad as int * reserve_rate, WAD_SCALE as int);
            lemma_portion_bounds(amount_wad as int * commission_rate, token_scale(d));
            lemma_portion_bounds(amount_wad as int * reserve_rate, token_scale(d));
        }
        let amount_to_commission = wad_to_token_amount(e, commission_wad, decimals);
        let amount_to_reserve_fund = wad_to_token_amount(e, reserve_wad, decimals);
        Amount {
            amount_to_invest: *amount - amount_to_commission - amount_to_reserve_fund,
            amount_to_reserve_fund,
            amount_to_commission,
        }
    }
}

/// The contract's running balances: the reserve, project and commission
/// buckets, and the accumulators that record how money came and went.
#[derive(Clone, Copy, Debug, PartialEq, Eq, Structural)]
pub struct ContractBalance {
    pub reserve: i128,
    pub project: i128,
    pub comission: i128,
    pub received_so_far: i128,
    pub payments: i128,
    pub reserve_contributions: i128,
    pub project_withdrawals: i128,
    pub moved_from_project_to_reserve: i128,
}

/// A snapshot of the balances, published after each change.
#[derive(Clone, Copy, Debug, PartialEq, Eq, Structural)]
pub struct ContractBalanceUpdated {
    pub reserve: i128,
    pub project: i128,
    pub comission: i128,
    pub received_so_far: i128,
    pub payments: i128,
    pub reserve_contributions: i128,
    pub project_withdrawals: i128,
    pub moved_from_project_to_reserve: i128,
}

/// One movement of money through the balances.
pub enum LedgerMove {
    /// A split deposit comes in.
    Investment { commission: i128, reserve: i128, invest: i128 },
    /// The company adds funds to the reserve.
    CompanyContribution(i128),
    /// Funds leave the project bucket for the project address.
    CompanyWithdrawal(i128),
    /// Funds leave the reserve for an investor.
    PaymentToInvestor(i128),
    /// Funds move from the project bucket to the reserve.
    ProjectToReserve(i128),
}

/// Whether `x` is a value of `i128`.
pub open spec fn in_i128(x: int) -> bool {
    i128::MIN <= x <= i128::MAX
}

impl ContractBalance {
    /// All buckets and accumulators at zero.
    pub open spec fn zero() -> ContractBalance {
        ContractBalance {
            reserve: 0,
            project: 0,
            comission: 0,
            received_so_far: 0,
            payments: 0,
            reserve_contributions: 0,
            project_withdrawals: 0,
            moved_from_project_to_reserve: 0,
        }
    }

    /// The balances after `m`, each field computed over the integers.
    pub open spec fn after(self, m: LedgerMove) -> ContractBalance {
        match m {
            LedgerMove::Investment { commission, reserve, invest } => ContractBalance {
                comission: (self.comission + commission) as i128,
                reserve: (self.reserve + reserve) as i128,
                project: (self.project + invest) as i128,
                received_so_far: (self.received_so_far + reserve + invest) as i128,
                ..self
            },
            LedgerMove::CompanyContribution(a) => ContractBalance {
                reserve: (self.reserve + a) as i128,
                reserve_contributions: (self.reserve_contributions + a) as i128,
                ..self
            },
            LedgerMove::CompanyWithdrawal(a) => ContractBalance {
                project: (self.project - a) as i128,
                project_withdrawals: (self.project_withdrawals + a) as i128,
                ..self
            },
            LedgerMove::PaymentToInvestor(a) => ContractBalance {
                reserve: (self.reserve - a) as i128,
                payments: (self.payments + a) as i128,
                ..self
            },
            LedgerMove::ProjectToReserve(a) => ContractBalance {
                project: (self.project - a) as i128,
                reserve: (self.reserve + a) as i128,
                moved_from_project_to_reserve: (self.moved_from_project_to_reserve + a) as i128,
                ..self
            },
        }
    }

    /// Whether every field that `m` changes stays within `i128`.
    pub open spec fn fits(self, m: LedgerMove) -> bool {
        match m {
            LedgerMove::Investment { commission, reserve, invest } => {
                &&& in_i128(self.comission + commission)
                &&& in_i128(self.reserve + reserve)
                &&& in_i128(self.project + invest)
                &&& in_i128(reserve + invest)
                &&& in_i128(self.received_so_far + reserve + invest)
            },
            LedgerMove::CompanyContribution(a) => {
                &&& in_i128(self.reserve + a)
                &&& in_i128(self.reserve_contributions + a)
            },
            LedgerMove::CompanyWithdrawal(a) => {
                &&& in_i128(self.project - a)
                &&& in_i128(self.project_withdrawals + a)
            },
            LedgerMove::PaymentToInvestor(a) => {
                &&& in_i128(self.reserve - a)
                &&& in_i128(self.payments + a)
            },
            LedgerMove::ProjectToReserve(a) => {
                &&& in_i128(self.project - a)
                &&& in_i128(self.reserve + a)
                &&& in_i128(self.moved_from_project_to_reserve + a)
            },
        }
    }

    /// The balances after the moves of `moves`, in order.
    pub open spec fn replay(self, moves: Seq<LedgerMove>) -> ContractBalance
        decreases moves.len(),
    {
        if moves.len() == 0 {
            self
        } else {
            self.after(moves[0]).replay(moves.subrange(1, moves.len() as int))
        }
    }

    /// Whether each move of `moves` fits when it is made.
    pub open spec fn replay_fits(self, moves: Seq<LedgerMove>) -> bool
        decreases moves.len(),
    {
        if moves.len() == 0 {
            true
        } else {
            self.fits(moves[0]) && self.after(moves[0]).replay_fits(
                moves.subrange(1, moves.len() as int),
            )
        }
    }

    /// Reserve and project together hold what was received, plus what the
    /// company contributed, less what was paid out and withdrawn.
    pub open spec fn is_conserved(self) -> bool {
        self.reserve + self.project == self.received_so_far + self.reserve_contributions
            - self.payments - self.project_withdrawals
    }

    /// Whether the move `m` fits, see [`ContractBalance::fits`].
    pub fn can_apply(&self, m: &LedgerMove) -> (r: bool)
        ensures
            r == self.fits(*m),
    {
        match m {
            LedgerMove::Investment { commission, reserve, invest } => {
                add_fits(self.comission, *commission) && add_fits(self.reserve, *reserve)
                    && add_fits(self.project, *invest) && add_fits(*reserve, *invest)
                    && add_fits(self.received_so_far, *reserve + *invest)
            },
            LedgerMove::CompanyContribution(a) => {
                add_fits(self.reserve, *a) && add_fits(self.reserve_contributions, *a)
            },
            LedgerMove::CompanyWithdrawal(a) => {
                sub_fits(self.project, *a) && add_fits(self.project_withdrawals, *a)
            },
            LedgerMove::PaymentToInvestor(a) => {
                sub_fits(self.reserve, *a) && add_fits(self.payments, *a)
            },
            LedgerMove::ProjectToReserve(a) => {
                sub_fits(self.project, *a) && add_fits(self.reserve, *a) && add_fits(
                    self.moved_from_project_to_reserve,
                    *a,
                )
            },
        }
    }

    /// Balances with every bucket and accumulator at zero.
    pub fn new() -> (r: ContractBalance)
        ensures
            r == ContractBalance::zero(),
            r.is_conserved(),
    {
        ContractBalance {
            reserve: 0_i128,
            project: 0_i128,
            comission: 0_i128,
            received_so_far: 0_i128,
            payments: 0_i128,
            reserve_contributions: 0_i128,
            project_withdrawals: 0_i128,
            moved_from_project_to_reserve: 0_i128,
        }
    }

    /// The total held in the three buckets.
    pub fn sum(&self) -> (r: i128)
        requires
            in_i128(self.comission + self.project),
            in_i128(self.comission + self.project + self.reserve),
        ensures
            r == self.comission + self.project + self.reserve,
    {
        self.comission + self.project + self.reserve
    }

    /// Records a split deposit.
    pub fn recalculate_from_investment(&mut self, amounts: &Amount)
        requires
            old(self).fits(
                LedgerMove::Investment {
                    commission: amounts.amount_to_commission,
                    reserve: amounts.amount_to_reserve_fund,
                    invest: amounts.amount_to_invest,
                },
            ),
        ensures
            *final(self) == old(self).after(
                LedgerMove::Investment {
                    commission: amounts.amount_to_commission,
                    reserve: amounts.amount_to_reserve_fund,
                    invest: amounts.amount_to_invest,
                },
            ),
    {
        self.comission = self.comission + amounts.amount_to_commission;
        self.reserve = self.reserve + amounts.amount_to_reserve_fund;
        self.project = self.project + amounts.amount_to_invest;
        self.received_so_far = self.received_so_far + (amounts.amount_to_reserve_fund
            + amounts.amount_to_invest);
    }

    /// Records funds the company adds to the reserve.
    pub fn recalculate_from_company_contribution(&mut self, amount: &i128)
        requires
            old(self).fits(LedgerMove::CompanyContribution(*amount)),
        ensures
            *final(self) == old(self).after(LedgerMove::CompanyContribution(*amount)),
    {
        self.reserve = self.reserve + *amount;
        self.reserve_contributions = self.reserve_contributions + *amount;
    }

    /// Records a withdrawal from the project bucket.
    pub fn recalculate_from_company_withdrawal(&mut self, amount: &i128)
        requires
            old(self).fits(LedgerMove::CompanyWithdrawal(*amount)),
        ensures
            *final(self) == old(self).after(LedgerMove::CompanyWithdrawal(*amount)),
    {
        self.project = self.project - *amount;
        self.project_withdrawals = self.project_withdrawals + *amount;
    }

    /// Records a payment from the reserve to an investor.
    pub fn recalculate_from_payment_to_investor(&mut self, amount: &i128)
        requires
            old(self).fits(LedgerMove::PaymentToInvestor(*amount)),
        ensures
            *final(self) == old(self).after(LedgerMove::PaymentToInvestor(*amount)),
    {
        self.reserve = self.reserve - *amount;
        self.payments = self.payments + *amount;
    }

    /// Records funds moved from the project bucket to the reserve.
    pub fn recalculate_from_project_to_reserver_movement(&mut self, amount: &i128)
        requires
            old(self).fits(LedgerMove::ProjectToReserve(*amount)),
        ensures
            *final(self) == old(self).after(LedgerMove::ProjectToReserve(*amount)),
    {
        self.project = self.project - *amount;
        self.reserve = self.reserve + *amount;
        self.moved_from_project_to_reserve = self.moved_from_project_to_reserve + *amount;
    }

    /// The event that reports these balances.
    pub fn updated_event(&self) -> (r: ContractBalanceUpdated)
        ensures
            r.reserve == self.reserve,
            r.project == self.project,
            r.comission == self.comission,
            r.received_so_far == self.received_so_far,
            r.payments == self.payments,
            r.reserve_contributions == self.reserve_contributions,
            r.project_withdrawals == self.project_withdrawals,
            r.moved_from_project_to_reserve == self.moved_from_project_to_reserve,
    {
        ContractBalanceUpdated {
            reserve: self.reserve,
            project: self.project,
            comission: self.comission,
            received_so_far: self.received_so_far,
            payments: self.payments,
            reserve_contributions: self.reserve_contributions,
            project_withdrawals: self.project_withdrawals,
            moved_from_project_to_reserve: self.moved_from_project_to_reserve,
        }
    }
}

/// Every move that fits keeps the balances conserved.
pub proof fn lemma_move_conserves(b: ContractBalance, m: LedgerMove)
    requires
        b.is_conserved(),
        b.fits(m),
    ensures
        b.after(m).is_conserved(),
{
}

/// Conservation: after any sequence of moves from empty balances, the three
/// buckets hold the commission taken plus what was received and contributed,
/// less what was paid to investors and withdrawn; where no commission was
/// taken, that is received plus contributions less payments and withdrawals.
pub proof fn lemma_balance_conservation(moves: Seq<LedgerMove>)
    requires
        ContractBalance::zero().replay_fits(moves),
    ensures
        ({
            let b = ContractBalance::zero().replay(moves);
            &&& b.reserve + b.project + b.comission == b.comission + b.received_so_far
                + b.reserve_contributions - b.payments - b.project_withdrawals
            &&& b.comission == 0 ==> b.reserve + b.project + b.comission == b.received_so_far
                + b.reserve_contributions - b.payments - b.project_withdrawals
        }),
{
    lemma_replay_conserves(ContractBalance::zero(), moves);
}

/// Replaying moves that fit keeps conserved balances conserved.
pub proof fn lemma_replay_conserves(b: ContractBalance, moves: Seq<LedgerMove>)
    requires
        b.is_conserved(),
        b.replay_fits(moves),
    ensures
        b.replay(moves).is_conserved(),
    decreases moves.len(),
{
    if moves.len() > 0 {
        lemma_move_conserves(b, moves[0]);
        lemma_replay_conserves(b.after(moves[0]), moves.subrange(1, moves.len() as int));
    }
}

} // verus!
