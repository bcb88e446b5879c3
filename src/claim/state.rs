use vstd::prelude::*;

use crate::claim::error::ContractError;
use crate::timestamp::Timestamp;

verus! {

/// Basis points in a whole: an `initial_unlock` of this much releases everything.
pub const BPS_DENOMINATOR: u128 = 10000;

/// The contract's owner, and whether claims are paused.
#[derive(Clone, Debug, PartialEq, Eq)]
pub struct State {
    pub owner: String,
    pub paused: bool,
}

/// The vesting schedule shared by all beneficiaries.
#[derive(Clone, Debug, PartialEq, Eq)]
pub struct ClaimInfo {
    pub reward_denom: String,
    /// Part released once vesting starts, in basis points.
    pub initial_unlock: u128,
    pub vesting_start: Timestamp,
    /// Seconds after the start during which only the initial part is available.
    pub vesting_cliff: u128,
    /// Seconds after the cliff over which the rest vests.
    pub vesting_time: u128,
    /// Seconds per vesting step: the rest vests in whole steps of this length.
    pub vesting_interval: u128,
}

/// A beneficiary's entitlement and what has been withdrawn of it.
#[derive(Clone, Copy, Debug, PartialEq, Eq, Structural)]
pub struct UserInfo {
    pub reward: u128,
    pub withdrawn: u128,
}

impl State {
    pub fn check_paused(&self) -> (r: Result<(), ContractError>)
        ensures
            r == (if self.paused { Err(ContractError::NotActive {}) } else { Ok::<(), ContractError>(()) }),
    {
        if self.paused {
            return Err(ContractError::NotActive {});
        }
        Ok(())
    }

    pub fn check_owner(&self, sender: &String) -> (r: Result<(), ContractError>)
        ensures
            r == (if sender@ == self.owner@ { Ok::<(), ContractError>(()) } else { Err(ContractError::Unauthorized {}) }),
    {
        if !(*sender == self.owner) {
            return Err(ContractError::Unauthorized {});
        }
        Ok(())
    }
}

impl ClaimInfo {
    /// A schedule as meant: the initial part is at most the whole, and where
    /// there is a linear phase it has at least one step.
    pub open spec fn wf(self) -> bool {
        &&& self.initial_unlock <= BPS_DENOMINATOR
        &&& self.vesting_time == 0 || 0 < self.vesting_interval <= self.vesting_time
    }

    pub open spec fn started(self, time: Timestamp) -> bool {
        self.vesting_start.nanos <= time.nanos
    }

    /// Whole seconds from the start of vesting to `time`.
    pub open spec fn elapsed(self, time: Timestamp) -> int {
        time.secs() - self.vesting_start.secs()
    }

    /// The part of `total` released at the start.
    pub open spec fn initial_part(self, total: int) -> int {
        total * self.initial_unlock / BPS_DENOMINATOR as int
    }

    /// Whole vesting steps completed since the cliff.
    pub open spec fn steps_elapsed(self, time: Timestamp) -> int {
        (self.elapsed(time) - self.vesting_cliff) / self.vesting_interval as int
    }

    pub open spec fn total_steps(self) -> int {
        self.vesting_time as int / self.vesting_interval as int
    }

    pub open spec fn in_cliff(self, time: Timestamp) -> bool {
        self.elapsed(time) <= self.vesting_cliff
    }

    pub open spec fn finished(self, time: Timestamp) -> bool {
        self.elapsed(time) > self.vesting_cliff + self.vesting_time
    }

    /// How much of `total` has unlocked at `time`.
    pub open spec fn unlocked(self, total: int, time: Timestamp) -> int {
        if !self.started(time) {
            0
        } else if self.in_cliff(time) {
            self.initial_part(total)
        } else if self.finished(time) {
            total
        } else {
            let initial = self.initial_part(total);
            (total - initial) * self.steps_elapsed(time) / self.total_steps() + initial
        }
    }

    /// Whether `unlocked(total, time)` can be computed in 128-bit arithmetic:
    /// every product and sum fits, no divisor is zero, and the initial part
    /// does not exceed the total.
    pub open spec fn unlock_computable(self, total: int, time: Timestamp) -> bool {
        if !self.started(time) {
            true
        } else if self.in_cliff(time) {
            total * self.initial_unlock <= u128::MAX
        } else {
            &&& self.vesting_cliff + self.vesting_time <= u128::MAX
            &&& !self.finished(time) ==> {
                &&& total * self.initial_unlock <= u128::MAX
                &&& self.initial_part(total) <= total
                &&& self.vesting_interval > 0
                &&& self.total_steps() > 0
                &&& (total - self.initial_part(total)) * self.steps_elapsed(time) <= u128::MAX
            }
        }
    }

    pub fn is_started(&self, time: Timestamp) -> (r: bool)
        ensures
            r == self.started(time),
    {
        if time.nanos < self.vesting_start.nanos {
            return false;
        }
        true
    }

    /// How much of `total_amount` has unlocked at `time`; `None` where that
    /// cannot be computed in 128-bit arithmetic.
    pub fn unlocked_amount(&self, total_amount: u128, time: Timestamp) -> (r: Option<u128>)
        ensures
            r is Some <==> self.unlock_computable(total_amount as int, time),
            r is Some ==> r->0 == self.unlocked(total_amount as int, time),
            !self.started(time) ==> r == Some(0u128),
            self.wf() && r is Some ==> r->0 <= total_amount,
            self.wf() && r is Some && self.started(time) && self.finished(time) ==> r->0 == total_amount,
    {
        if !self.is_started(time) {
            return Some(0);
        }
        proof {
            vstd::arithmetic::div_mod::lemma_div_is_ordered(
                self.vesting_start.nanos as int,
                time.nanos as int,
                crate::timestamp::NANOS_PER_SECOND as int,
            );
            lemma_unlocked_at_most_total(*self, total_amount as int, time);
        }
        let time_since_claim = (time.seconds() - self.vesting_start.seconds()) as u128;
        if time_since_claim <= self.vesting_cliff {
            match total_amount.checked_mul(self.initial_unlock) {
                Some(product) => Some(product / BPS_DENOMINATOR),
                None => None,
            }
        } else {
            let end = match self.vesting_cliff.checked_add(self.vesting_time) {
                Some(end) => end,
                None => return None,
            };
            if time_since_claim > end {
                return Some(total_amount);
            }
            let initial_amount = match total_amount.checked_mul(self.initial_unlock) {
                Some(product) => product / BPS_DENOMINATOR,
                None => return None,
            };
            if initial_amount > total_amount || self.vesting_interval == 0 {
                return None;
            }
            let vestable = total_amount - initial_amount;
            let intervals_since = (time_since_claim - self.vesting_cliff) / self.vesting_interval;
            let total_vesting_intervals = self.vesting_time / self.vesting_interval;
            if total_vesting_intervals == 0 {
                return None;
            }
            let vested = match vestable.checked_mul(intervals_since) {
                Some(vested) => vested,
                None => return None,
            };
            proof {
                vstd::arithmetic::div_mod::lemma_div_is_ordered(
                    (time_since_claim - self.vesting_cliff) as int,
                    self.vesting_time as int,
                    self.vesting_interval as int,
                );
                lemma_linear_part_at_most(vestable as int, intervals_since as int, total_vesting_intervals as int);
            }
            Some(vested / total_vesting_intervals + initial_amount)
        }
    }
}

/// Where the curve is computable its value fits in 128 bits.
pub(crate) proof fn lemma_computable_in_range(info: ClaimInfo, total: u128, time: Timestamp)
    requires
        info.unlock_computable(total as int, time),
    ensures
        0 <= info.unlocked(total as int, time) <= u128::MAX,
{
    let total = total as int;
    if info.started(time) && !(info.finished(time) && !info.in_cliff(time)) {
        let product = total * info.initial_unlock;
        vstd::arithmetic::mul::lemma_mul_nonnegative(total, info.initial_unlock as int);
        vstd::arithmetic::div_mod::lemma_div_pos_is_pos(product, BPS_DENOMINATOR as int);
        vstd::arithmetic::div_mod::lemma_div_is_ordered_by_denominator(product, 1, BPS_DENOMINATOR as int);
        if !info.in_cliff(time) {
            vstd::arithmetic::div_mod::lemma_div_is_ordered(
                info.elapsed(time) - info.vesting_cliff,
                info.vesting_time as int,
                info.vesting_interval as int,
            );
            vstd::arithmetic::div_mod::lemma_div_pos_is_pos(
                info.elapsed(time) - info.vesting_cliff,
                info.vesting_interval as int,
            );
            lemma_linear_part_at_most(
                total - info.initial_part(total),
                info.steps_elapsed(time),
                info.total_steps(),
            );
        }
    }
}

/// `v * s / t` is at most `v` when `s` is at most `t`.
pub(crate) proof fn lemma_linear_part_at_most(v: int, s: int, t: int)
    requires
        0 <= v,
        0 <= s <= t,
        0 < t,
    ensures
        0 <= v * s / t <= v,
{
    vstd::arithmetic::mul::lemma_mul_nonnegative(v, s);
    vstd::arithmetic::div_mod::lemma_div_pos_is_pos(v * s, t);
    vstd::arithmetic::mul::lemma_mul_inequality(s, t, v);
    assert(s * v == v * s) by (nonlinear_arith);
    assert(t * v == v * t) by (nonlinear_arith);
    vstd::arithmetic::div_mod::lemma_div_is_ordered(v * s, v * t, t);
    vstd::arithmetic::div_mod::lemma_div_by_multiple(v, t);
}

/// The initial part of a non-negative total is between zero and the total.
pub(crate) proof fn lemma_initial_part_bounded(info: ClaimInfo, total: int)
    requires
        info.wf(),
        0 <= total,
    ensures
        0 <= info.initial_part(total) <= total,
{
    lemma_linear_part_at_most(total, info.initial_unlock as int, BPS_DENOMINATOR as int);
}

/// The unlocked amount of a non-negative total stays between zero and the
/// total, for a well-formed schedule.
pub(crate) proof fn lemma_unlocked_at_most_total(info: ClaimInfo, total: int, time: Timestamp)
    requires
        0 <= total,
    ensures
        info.wf() ==> 0 <= info.unlocked(total, time) <= total,
{
    if info.wf() {
        lemma_initial_part_bounded(info, total);
        if info.started(time) && !info.in_cliff(time) && !info.finished(time) {
            let initial = info.initial_part(total);
            vstd::arithmetic::div_mod::lemma_div_is_ordered(
                info.elapsed(time) - info.vesting_cliff,
                info.vesting_time as int,
                info.vesting_interval as int,
            );
            vstd::arithmetic::div_mod::lemma_div_pos_is_pos(
                info.elapsed(time) - info.vesting_cliff,
                info.vesting_interval as int,
            );
            vstd::arithmetic::div_mod::lemma_div_is_ordered(
                info.vesting_interval as int,
                info.vesting_time as int,
                info.vesting_interval as int,
            );
            vstd::arithmetic::div_mod::lemma_div_by_multiple(1, info.vesting_interval as int);
            lemma_linear_part_at_most(total - initial, info.steps_elapsed(time), info.total_steps());
        }
    }
}

} // verus!
