use vstd::prelude::*;

use crate::bank::Coin;
use crate::sale::state::{SaleConfig, SaleData, UserInfo};

verus! {

#[derive(Clone, Debug, PartialEq, Eq)]
pub struct InstantiateMsg {
    pub sale: SaleConfig,
}

/// A buyer's record as the owner sets it.
#[derive(Clone, Debug, PartialEq, Eq)]
pub struct UserInfoReq {
    pub address: String,
    pub allocation: u128,
    pub spent: u128,
}

/// A buyer's record as queries report it.
#[derive(Clone, Debug, PartialEq, Eq)]
pub struct UserInfoRes {
    pub address: String,
    pub allocation: u128,
    pub spent: u128,
    pub received_amount: u128,
}

#[derive(Clone, Debug, PartialEq, Eq)]
pub enum ExecuteMsg {
    UpdateSale { sale: SaleConfig },
    SetUserList { users: Vec<UserInfoReq> },
    Buy {},
    Withdraw { to: String, funds: Vec<Coin> },
    TransferOwnership { address: String },
}

#[derive(Clone, Debug, PartialEq, Eq)]
pub enum QueryMsg {
    GetSale {},
    GetUserInfo { address: String },
    GetUsers {},
    GetReceivedAmount { pay_amount: u128 },
}

#[derive(Clone, Debug, PartialEq, Eq)]
pub struct GetSaleResponse {
    pub sale_config: SaleConfig,
    pub sale_data: SaleData,
}

#[derive(Clone, Copy, Debug, PartialEq, Eq)]
pub struct GetUserInfoResponse {
    pub user: UserInfo,
}

} // verus!
