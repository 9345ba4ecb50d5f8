use crate::balance::in_i128;
use crate::constants::{SECONDS_IN_MONTH, SECONDS_IN_WEEK};
use crate::investment::Investment;
use crate::validation::Error;
use vstd::prelude::*;

verus! {

/// When an investment's next payment falls due, and how much it is.
#[derive(Clone, Copy, Debug, PartialEq, Eq, Structural)]
pub struct Claim {
    pub next_transfer_ts: u64,
    pub amount_to_pay: i128,
}

impl Claim {
    /// Whether the claim falls due within a week of `now`.
    pub fn is_claim_next(&self, now: u64) -> (r: bool)
        ensures
            r == (self.next_transfer_ts <= now + SECONDS_IN_WEEK),
    {
        if now > u64::MAX - SECONDS_IN_WEEK {
            true
        } else {
            self.next_transfer_ts <= now + SECONDS_IN_WEEK
        }
    }
}

/// When the next payment of `investment` falls due, seen at time `now`: a
/// month after the last payment, or a month from now before the first.
pub open spec fn next_claim_ts(investment: Investment, now: u64) -> int {
    if investment.last_transfer_ts > 0 {
        investment.last_transfer_ts + SECONDS_IN_MONTH
    } else {
        now + SECONDS_IN_MONTH
    }
}

/// The next claim of `investment`, seen at time `now`.
pub fn calculate_next_claim(investment: &Investment, now: u64) -> (r: Claim)
    requires
        next_claim_ts(*investment, now) <= u64::MAX,
    ensures
        r.next_transfer_ts == next_claim_ts(*investment, now),
        r.amount_to_pay == investment.regular_payment,
{
    Claim {
        next_transfer_ts: if investment.last_transfer_ts > 0 {
            investment.last_transfer_ts + SECONDS_IN_MONTH
        } else {
            now + SECONDS_IN_MONTH
        },
        amount_to_pay: investment.regular_payment,
    }
}

/// Periods of `investment` that can be claimed at time `now`: before the first
/// payment one as soon as the lock ends and one more per full month after it,
/// later one per full month since the last payment; never more than remain.
pub open spec fn claimable_periods(investment: Investment, return_months: u32, now: u64) -> int {
    let remaining = return_months - investment.payments_transferred;
    let eligible = if investment.last_transfer_ts == 0 {
        (now - investment.claimable_ts) / (SECONDS_IN_MONTH as int) + 1
    } else {
        (now - investment.last_transfer_ts) / (SECONDS_IN_MONTH as int)
    };
    if eligible < remaining {
        eligible
    } else {
        remaining
    }
}

/// The times at which the claimable periods of `investment` can be counted.
pub open spec fn claim_time_valid(investment: Investment, return_months: u32, now: u64) -> bool {
    &&& investment.payments_transferred <= return_months
    &&& investment.last_transfer_ts == 0 ==> investment.claimable_ts <= now
    &&& investment.last_transfer_ts != 0 ==> investment.last_transfer_ts <= now
}

/// Number of periods of `investment` that can be claimed at time `now`.
pub fn calculate_claimable_payments(investment: &Investment, return_months: u32, now: u64) -> (r:
    u32)
    requires
        claim_time_valid(*investment, return_months, now),
    ensures
        r == claimable_periods(*investment, return_months, now),
        0 <= r <= return_months - investment.payments_transferred,
{
    let remaining = return_months - investment.payments_transferred;
    let eligible: u64 = if investment.last_transfer_ts == 0 {
        let elapsed = now - investment.claimable_ts;
        elapsed / SECONDS_IN_MONTH + 1
    } else {
        let elapsed = now - investment.last_transfer_ts;
        elapsed / SECONDS_IN_MONTH
    };
    if eligible < remaining as u64 {
        eligible as u32
    } else {
        remaining
    }
}

/// The amount of the claims of `claims` that fall due within a week of `now`.
pub open spec fn due_total(claims: Seq<Claim>, now: u64) -> int
    decreases claims.len(),
{
    if claims.len() == 0 {
        0
    } else {
        due_total(claims.drop_last(), now) + if claims.last().next_transfer_ts <= now
            + SECONDS_IN_WEEK {
            claims.last().amount_to_pay as int
        } else {
            0
        }
    }
}

/// What must be added to the reserve to cover the claims due within a week.
pub open spec fn shortfall(claims: Seq<Claim>, reserve: i128, now: u64) -> int {
    let due = due_total(claims, now);
    if due > 0 && reserve < due {
        due - reserve
    } else {
        0
    }
}

/// Whether every running total of the claims of `claims` due within a week
/// of `now` is a value of `i128`.
pub open spec fn due_totals_fit(claims: Seq<Claim>, now: u64) -> bool {
    forall|k: int| 0 <= k <= claims.len() ==> in_i128(#[trigger] due_total(claims.take(k), now))
}

/// Outcome of computing the reserve shortfall.
pub open spec fn shortfall_outcome(claims: Seq<Claim>, reserve: i128, now: u64) -> Result<
    i128,
    Error,
> {
    if !due_totals_fit(claims, now) || !in_i128(shortfall(claims, reserve, now)) {
        Err(Error::ArithmeticOverflow)
    } else {
        Ok(shortfall(claims, reserve, now) as i128)
    }
}

/// Funds to add to `reserve` so that the claims of `claims` due within a
/// week of `now` can be paid; zero when the reserve covers them.
pub fn reserve_shortfall(claims: &Vec<Claim>, reserve: i128, now: u64) -> (r: Result<i128, Error>)
    ensures
        r == shortfall_outcome(claims@, reserve, now),
{
    let mut min_funds: i128 = 0;
    let mut i: usize = 0;
    while i < claims.len()
        invariant
            i <= claims@.len(),
            min_funds == due_total(claims@.take(i as int), now),
            forall|k: int| 0 <= k <= i ==> in_i128(#[trigger] due_total(claims@.take(k), now)),
        decreases claims.len() - i,
    {
        let next_claim = claims[i];
        proof {
            assert(claims@.take(i + 1).drop_last() == claims@.take(i as int));
            assert(claims@.take(i + 1).last() == next_claim);
        }
        if next_claim.is_claim_next(now) {
            match min_funds.checked_add(next_claim.amount_to_pay) {
                Some(v) => {
                    min_funds = v;
                },
                None => {
                    proof {
                        assert(!in_i128(due_total(claims@.take(i + 1), now)));
                    }
                    return Err(Error::ArithmeticOverflow);
                },
            }
        }
        i = i + 1;
    }
    proof {
        assert(claims@.take(claims@.len() as int) == claims@);
    }
    if min_funds > 0 && reserve < min_funds {
        return match min_funds.checked_sub(reserve) {
            Some(v) => Ok(v),
            None => Err(Error::ArithmeticOverflow),
        };
    }
    Ok(0)
}

} // verus!
