use vstd::prelude::*;

use crate::claim::state::{ClaimInfo, UserInfo};

verus! {

/// A beneficiary's address with its record.
#[derive(Clone, Debug, PartialEq, Eq)]
pub struct UserInfoItem {
    pub address: String,
    pub user_info: UserInfo,
}

#[derive(Clone, Debug, PartialEq, Eq)]
pub struct InstantiateMsg {
    pub claim_info: ClaimInfo,
}

#[derive(Clone, Debug, PartialEq, Eq)]
pub enum ExecuteMsg {
    TogglePause {},
    TransferOwnership { address: String },
    UpdateClaimInfo { claim_info: ClaimInfo },
    Claim {},
    SetUsers { users: Vec<UserInfoItem> },
    Withdraw { address: String, denom: String, amount: u128 },
}

#[derive(Clone, Debug, PartialEq, Eq)]
pub enum QueryMsg {
    GetState {},
    GetClaim {},
    TotalAvailableAfter {},
    GetWithdrawableAmount { address: String },
    GetUserInfo { address: String },
    GetUsers {},
}

} // verus!
