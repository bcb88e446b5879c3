//! The claim contract's actions, each from the records it reads to the
//! records it writes and the transfer it asks for.

use vstd::prelude::*;

use crate::bank::{coins, BankSend, Coin, MessageInfo};
use crate::claim::error::ContractError;
use crate::claim::msg::{InstantiateMsg, UserInfoItem};
use crate::claim::state::{ClaimInfo, State, UserInfo};
use crate::timestamp::Timestamp;

verus! {

/// Whether a claim by `user` at `time` can be computed: the curve is
/// computable and has not fallen below what was already withdrawn.
pub open spec fn claimable(info: ClaimInfo, user: UserInfo, time: Timestamp) -> bool {
    &&& info.unlock_computable(user.reward as int, time)
    &&& info.unlocked(user.reward as int, time) >= user.withdrawn
}

/// What `user` may withdraw at `time`.
pub open spec fn withdrawable(info: ClaimInfo, user: UserInfo, time: Timestamp) -> int {
    info.unlocked(user.reward as int, time) - user.withdrawn
}

/// The record after a claim at `time`: everything unlocked is withdrawn.
pub open spec fn claimed(info: ClaimInfo, user: UserInfo, time: Timestamp) -> UserInfo {
    UserInfo { reward: user.reward, withdrawn: info.unlocked(user.reward as int, time) as u128 }
}

/// The first records of a new contract: the sender owns it, claims are not
/// paused, and the schedule is the one given.
pub fn instantiate(info: &MessageInfo, msg: InstantiateMsg) -> (r: (State, ClaimInfo))
    ensures
        r.0.owner@ == info.sender@,
        !r.0.paused,
        r.1 == msg.claim_info,
{
    (State { owner: info.sender.clone(), paused: false }, msg.claim_info)
}

/// The owner hands the contract to `new_owner`.
pub fn transfer_ownership(state: &State, info: &MessageInfo, new_owner: String) -> (r: Result<State, ContractError>)
    ensures
        r is Ok <==> info.sender@ == state.owner@,
        r is Err ==> r == Err::<State, ContractError>(ContractError::Unauthorized {}),
        r is Ok ==> r->Ok_0.owner == new_owner && r->Ok_0.paused == state.paused,
{
    state.check_owner(&info.sender)?;
    Ok(State { owner: new_owner, paused: state.paused })
}

/// The owner sends `amount` of `denom` out of the contract to `to`.
pub fn withdraw(state: &State, info: &MessageInfo, to: String, denom: String, amount: u128) -> (r: Result<BankSend, ContractError>)
    ensures
        r is Ok <==> info.sender@ == state.owner@,
        r is Err ==> r == Err::<BankSend, ContractError>(ContractError::Unauthorized {}),
        r is Ok ==> r->Ok_0.to_address == to && r->Ok_0.amount@ == seq![Coin { denom, amount }],
{
    state.check_owner(&info.sender)?;
    Ok(BankSend { to_address: to, amount: coins(amount, denom) })
}

/// The owner pauses claims, or resumes them.
pub fn toggle_pause(state: &State, info: &MessageInfo) -> (r: Result<State, ContractError>)
    ensures
        r is Ok <==> info.sender@ == state.owner@,
        r is Err ==> r == Err::<State, ContractError>(ContractError::Unauthorized {}),
        r is Ok ==> r->Ok_0.owner@ == state.owner@ && r->Ok_0.paused == !state.paused,
{
    state.check_owner(&info.sender)?;
    Ok(State { owner: state.owner.clone(), paused: !state.paused })
}

/// The owner replaces the vesting schedule as a whole.
pub fn update_claim_info(state: &State, info: &MessageInfo, claim_info: ClaimInfo) -> (r: Result<ClaimInfo, ContractError>)
    ensures
        r == (if info.sender@ == state.owner@ {
            Ok(claim_info)
        } else {
            Err::<ClaimInfo, ContractError>(ContractError::Unauthorized {})
        }),
{
    state.check_owner(&info.sender)?;
    Ok(claim_info)
}

/// The owner replaces beneficiaries' records, `withdrawn` included, with the
/// given ones verbatim: what comes back is to be stored, in this order.
pub fn set_users(state: &State, info: &MessageInfo, users: Vec<UserInfoItem>) -> (r: Result<Vec<UserInfoItem>, ContractError>)
    ensures
        r == (if info.sender@ == state.owner@ {
            Ok(users)
        } else {
            Err::<Vec<UserInfoItem>, ContractError>(ContractError::Unauthorized {})
        }),
{
    state.check_owner(&info.sender)?;
    Ok(users)
}

/// The stored `(address, record)` pairs as items, in the same order.
pub fn get_users(entries: &Vec<(String, UserInfo)>) -> (r: Vec<UserInfoItem>)
    ensures
        r@.len() == entries@.len(),
        forall|i: int| 0 <= i < r@.len() ==> {
            &&& #[trigger] r@[i].address == entries@[i].0
            &&& r@[i].user_info == entries@[i].1
        },
{
    let mut r: Vec<UserInfoItem> = Vec::new();
    let mut i: usize = 0;
    while i < entries.len()
        invariant
            i <= entries@.len(),
            r@.len() == i,
            forall|j: int| 0 <= j < i ==> {
                &&& #[trigger] r@[j].address == entries@[j].0
                &&& r@[j].user_info == entries@[j].1
            },
        decreases entries@.len() - i,
    {
        r.push(UserInfoItem { address: entries[i].0.clone(), user_info: entries[i].1 });
        i += 1;
    }
    r
}

/// The time, in whole seconds, after which everything has vested: the start
/// plus the cliff plus the vesting time; `None` where that sum exceeds 128 bits.
pub fn total_available_after(claim_info: &ClaimInfo) -> (r: Option<u128>)
    ensures
        ({
            let end = claim_info.vesting_start.secs() + claim_info.vesting_cliff + claim_info.vesting_time;
            r == (if end <= u128::MAX { Some(end as u128) } else { None })
        }),
{
    let start = claim_info.vesting_start.seconds() as u128;
    match start.checked_add(claim_info.vesting_cliff) {
        Some(after_cliff) => after_cliff.checked_add(claim_info.vesting_time),
        None => None,
    }
}

/// What `user_info` may withdraw at `time`: the unlocked part of the reward
/// less what was withdrawn; `None` where the curve cannot be computed or has
/// fallen below what was withdrawn.
pub fn get_withdrawable_amount(claim_info: &ClaimInfo, user_info: &UserInfo, time: Timestamp) -> (r: Option<u128>)
    ensures
        r is Some <==> claimable(*claim_info, *user_info, time),
        r is Some ==> r->0 == withdrawable(*claim_info, *user_info, time),
{
    match claim_info.unlocked_amount(user_info.reward, time) {
        Some(unlocked) => unlocked.checked_sub(user_info.withdrawn),
        None => None,
    }
}

/// The sender claims all that has unlocked for them at `time` and not yet
/// been withdrawn. Rejected while paused or before vesting starts. On success
/// `withdrawn` rises to the unlocked amount, and the difference is sent to
/// the sender in the reward denomination; a difference of zero is no error.
pub fn claim(
    state: &State,
    claim_info: &ClaimInfo,
    user_info: &UserInfo,
    info: &MessageInfo,
    time: Timestamp,
) -> (r: Result<(UserInfo, BankSend), ContractError>)
    ensures
        state.paused || !claim_info.started(time)
            ==> r == Err::<(UserInfo, BankSend), ContractError>(ContractError::NotActive {}),
        !state.paused && claim_info.started(time) && !claimable(*claim_info, *user_info, time)
            ==> r == Err::<(UserInfo, BankSend), ContractError>(ContractError::Overflow {}),
        r is Ok <==> !state.paused && claim_info.started(time) && claimable(*claim_info, *user_info, time),
        r is Ok ==> {
            let (user, transfer) = r->Ok_0;
            &&& user == claimed(*claim_info, *user_info, time)
            &&& user.withdrawn >= user_info.withdrawn
            &&& transfer.to_address@ == info.sender@
            &&& transfer.amount@ == seq![Coin {
                denom: claim_info.reward_denom,
                amount: withdrawable(*claim_info, *user_info, time) as u128,
            }]
        },
{
    state.check_paused()?;
    if !claim_info.is_started(time) {
        return Err(ContractError::NotActive {});
    }
    let withdraw_amount = match get_withdrawable_amount(claim_info, user_info, time) {
        Some(amount) => amount,
        None => return Err(ContractError::Overflow {}),
    };
    proof {
        crate::claim::state::lemma_computable_in_range(*claim_info, user_info.reward, time);
    }
    let user = UserInfo { reward: user_info.reward, withdrawn: user_info.withdrawn + withdraw_amount };
    let transfer = BankSend {
        to_address: info.sender.clone(),
        amount: coins(withdraw_amount, claim_info.reward_denom.clone()),
    };
    Ok((user, transfer))
}

} // verus!
