//! Laws of the unlock curve and of claims along it.

use vstd::prelude::*;

use crate::claim::contract::{claimable, claimed, withdrawable};
use crate::claim::state::{
    lemma_computable_in_range, lemma_linear_part_at_most, lemma_unlocked_at_most_total, ClaimInfo,
    UserInfo, BPS_DENOMINATOR,
};
use crate::timestamp::{Timestamp, NANOS_PER_SECOND};

verus! {

/// Before vesting starts nothing has unlocked, whatever the total and the
/// schedule, and that answer is always computable.
pub proof fn lemma_nothing_before_start(info: ClaimInfo, total: u128, time: Timestamp)
    requires
        time.nanos < info.vesting_start.nanos,
    ensures
        info.unlocked(total as int, time) == 0,
        info.unlock_computable(total as int, time),
{
}

/// For a well-formed schedule the unlocked amount never exceeds the total, and
/// it is the whole total once the cliff and the vesting time have both passed.
pub proof fn lemma_unlocked_bounded(info: ClaimInfo, total: u128, time: Timestamp)
    requires
        info.wf(),
    ensures
        0 <= info.unlocked(total as int, time) <= total,
        info.started(time) && info.finished(time) ==> info.unlocked(total as int, time) == total,
{
    lemma_unlocked_at_most_total(info, total as int, time);
}

/// Seconds elapsed since the start grow with time.
proof fn lemma_elapsed_ordered(info: ClaimInfo, t1: Timestamp, t2: Timestamp)
    requires
        t1.nanos <= t2.nanos,
    ensures
        info.elapsed(t1) <= info.elapsed(t2),
{
    vstd::arithmetic::div_mod::lemma_div_is_ordered(
        t1.nanos as int,
        t2.nanos as int,
        NANOS_PER_SECOND as int,
    );
}

/// For a well-formed schedule the unlocked amount never decreases as time
/// goes on; in particular it is non-decreasing through the linear phase.
pub proof fn lemma_unlocked_monotonic(info: ClaimInfo, total: u128, t1: Timestamp, t2: Timestamp)
    requires
        info.wf(),
        t1.nanos <= t2.nanos,
    ensures
        info.unlocked(total as int, t1) <= info.unlocked(total as int, t2),
{
    let total = total as int;
    lemma_unlocked_at_most_total(info, total, t1);
    lemma_unlocked_at_most_total(info, total, t2);
    if info.started(t1) {
        lemma_elapsed_ordered(info, t1, t2);
        if !info.in_cliff(t1) && !info.finished(t1) && !info.finished(t2) {
            let initial = info.initial_part(total);
            let steps = info.total_steps();
            let v = total - initial;
            let s1 = info.steps_elapsed(t1);
            let s2 = info.steps_elapsed(t2);
            lemma_linear_phase_facts(info, total);
            vstd::arithmetic::div_mod::lemma_div_is_ordered(
                info.elapsed(t1) - info.vesting_cliff,
                info.elapsed(t2) - info.vesting_cliff,
                info.vesting_interval as int,
            );
            vstd::arithmetic::div_mod::lemma_div_pos_is_pos(
                info.elapsed(t1) - info.vesting_cliff,
                info.vesting_interval as int,
            );
            vstd::arithmetic::mul::lemma_mul_inequality(s1, s2, v);
            assert(s1 * v == v * s1 && s2 * v == v * s2) by (nonlinear_arith);
            vstd::arithmetic::div_mod::lemma_div_is_ordered(v * s1, v * s2, steps);
        } else if info.in_cliff(t1) && !info.in_cliff(t2) && !info.finished(t2) {
            let initial = info.initial_part(total);
            lemma_linear_phase_facts(info, total);
            vstd::arithmetic::div_mod::lemma_div_pos_is_pos(
                info.elapsed(t2) - info.vesting_cliff,
                info.vesting_interval as int,
            );
            vstd::arithmetic::mul::lemma_mul_nonnegative(total - initial, info.steps_elapsed(t2));
            vstd::arithmetic::div_mod::lemma_div_pos_is_pos(
                (total - initial) * info.steps_elapsed(t2),
                info.total_steps(),
            );
        }
    }
}

/// The initial part and the step count of a well-formed schedule in its
/// linear phase.
proof fn lemma_linear_phase_facts(info: ClaimInfo, total: int)
    requires
        info.wf(),
        0 <= total,
        info.vesting_time > 0,
    ensures
        0 <= info.initial_part(total) <= total,
        info.total_steps() >= 1,
{
    lemma_linear_part_at_most(total, info.initial_unlock as int, BPS_DENOMINATOR as int);
    vstd::arithmetic::div_mod::lemma_div_is_ordered(
        info.vesting_interval as int,
        info.vesting_time as int,
        info.vesting_interval as int,
    );
    vstd::arithmetic::div_mod::lemma_div_by_multiple(1, info.vesting_interval as int);
}

/// In the linear phase the unlocked amount is flat within one vesting step:
/// two times whose elapsed seconds past the cliff fall in the same step `k`
/// have the same amount unlocked.
pub proof fn lemma_unlocked_flat_within_step(
    info: ClaimInfo,
    total: u128,
    t1: Timestamp,
    t2: Timestamp,
    k: nat,
)
    requires
        info.wf(),
        info.started(t1) && !info.in_cliff(t1) && !info.finished(t1),
        info.started(t2) && !info.in_cliff(t2) && !info.finished(t2),
        k * info.vesting_interval <= info.elapsed(t1) - info.vesting_cliff < (k + 1) * info.vesting_interval,
        k * info.vesting_interval <= info.elapsed(t2) - info.vesting_cliff < (k + 1) * info.vesting_interval,
    ensures
        info.unlocked(total as int, t1) == info.unlocked(total as int, t2),
{
    let d = info.vesting_interval as int;
    assert((k + 1) * d == k * d + d) by (nonlinear_arith);
    assert(k * d == k as int * d);
    vstd::arithmetic::div_mod::lemma_fundamental_div_mod_converse(
        info.elapsed(t1) - info.vesting_cliff,
        d,
        k as int,
        info.elapsed(t1) - info.vesting_cliff - k * d,
    );
    vstd::arithmetic::div_mod::lemma_fundamental_div_mod_converse(
        info.elapsed(t2) - info.vesting_cliff,
        d,
        k as int,
        info.elapsed(t2) - info.vesting_cliff - k * d,
    );
}

/// Repeated claims never lower what has been withdrawn. After a claim that
/// could be computed at `t1`, a claim at any later `t2` where the curve can be
/// computed can be computed too: it withdraws a non-negative amount, nothing
/// at all when `t2` is `t1`, and leaves `withdrawn` no lower than before.
pub proof fn lemma_repeated_claims(info: ClaimInfo, user: UserInfo, t1: Timestamp, t2: Timestamp)
    requires
        info.wf(),
        t1.nanos <= t2.nanos,
        claimable(info, user, t1),
        info.unlock_computable(user.reward as int, t2),
    ensures
        ({
            let first = claimed(info, user, t1);
            let second = claimed(info, first, t2);
            &&& first.withdrawn >= user.withdrawn
            &&& claimable(info, first, t2)
            &&& withdrawable(info, first, t2) >= 0
            &&& t1 == t2 ==> withdrawable(info, first, t2) == 0
            &&& second.withdrawn >= first.withdrawn
        }),
{
    lemma_computable_in_range(info, user.reward, t1);
    lemma_computable_in_range(info, user.reward, t2);
    lemma_unlocked_monotonic(info, user.reward, t1, t2);
}

} // verus!
