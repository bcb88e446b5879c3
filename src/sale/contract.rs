//! The sale contract's actions, each from the records it reads to the
//! records it writes and the transfer it asks for.

use vstd::prelude::*;

use crate::bank::{must_pay, pays_exactly_in, BankSend, Coin, MessageInfo};
use crate::sale::error::ContractError;
use crate::sale::msg::{InstantiateMsg, UserInfoReq, UserInfoRes};
use crate::sale::state::{SaleConfig, SaleData, State, UserInfo};
use crate::timestamp::Timestamp;

verus! {

/// The receipt amount credited for `payment`: the price ratio applied with
/// the quotient truncated.
pub open spec fn price(sale: SaleConfig, payment: int) -> int {
    payment * sale.price_receive_amount / sale.price_pay_amount as int
}

/// The first rule that a purchase paid with `funds` at `time` breaks, checked
/// in this order: the sale is open; the payment is one non-zero coin in the
/// payment denomination; the buyer has an allocation; the payment fits what
/// is left of it; the payment fits what is left of the sale's cap. `None`
/// when it breaks none of them.
pub open spec fn purchase_error(
    sale: SaleConfig,
    sale_data: SaleData,
    user: UserInfo,
    funds: Seq<Coin>,
    time: Timestamp,
) -> Option<ContractError> {
    let payment = funds[0].amount;
    if !sale.active(time) {
        Some(ContractError::SaleNotActive {})
    } else if !pays_exactly_in(funds, sale.pay_denom@) {
        Some(ContractError::MissingFunds {})
    } else if user.allocation == 0 {
        Some(ContractError::NotParticipating {})
    } else if payment > user.allocation - user.spent {
        Some(ContractError::UserAllocationExceeded {
            wanted: payment,
            max: (user.allocation - user.spent) as u128,
        })
    } else if sale_data.total_spent + payment > sale.max_supply {
        Some(ContractError::SaleAllocationExceeded {
            wanted: payment,
            max: (sale.max_supply - sale_data.total_spent) as u128,
        })
    } else {
        None
    }
}

/// Whether the receipt amounts of an accepted purchase of `payment` fit in
/// 128 bits.
pub open spec fn receipt_fits(sale: SaleConfig, user: UserInfo, payment: int) -> bool {
    &&& payment * sale.price_receive_amount <= u128::MAX
    &&& user.received_amount + price(sale, payment) <= u128::MAX
}

/// The first records of a new sale: the sender owns it, its terms are the
/// ones given, and nothing has been taken in.
pub fn instantiate(info: &MessageInfo, msg: InstantiateMsg) -> (r: (State, SaleConfig, SaleData))
    ensures
        r.0.owner@ == info.sender@,
        r.1 == msg.sale,
        r.2.total_spent == 0,
{
    (State { owner: info.sender.clone() }, msg.sale, SaleData { total_spent: 0 })
}

/// The owner hands the contract to `new_owner`.
pub fn transfer_ownership(state: &State, info: &MessageInfo, new_owner: String) -> (r: Result<State, ContractError>)
    ensures
        r == (if info.sender@ == state.owner@ {
            Ok(State { owner: new_owner })
        } else {
            Err::<State, ContractError>(ContractError::Unauthorized {})
        }),
{
    if !(info.sender == state.owner) {
        return Err(ContractError::Unauthorized {});
    }
    Ok(State { owner: new_owner })
}

/// The owner replaces the sale's terms as a whole.
pub fn update_sale(state: &State, info: &MessageInfo, sale: SaleConfig) -> (r: Result<SaleConfig, ContractError>)
    ensures
        r == (if info.sender@ == state.owner@ {
            Ok(sale)
        } else {
            Err::<SaleConfig, ContractError>(ContractError::Unauthorized {})
        }),
{
    if !(info.sender == state.owner) {
        return Err(ContractError::Unauthorized {});
    }
    Ok(sale)
}

/// The owner sets buyers' allocations and spent amounts, overwriting their
/// records with nothing received: what comes back is the `(address, record)`
/// pairs to store, in this order.
pub fn set_user_list(state: &State, info: &MessageInfo, users: &Vec<UserInfoReq>) -> (r: Result<Vec<(String, UserInfo)>, ContractError>)
    ensures
        r is Ok <==> info.sender@ == state.owner@,
        r is Err ==> r == Err::<Vec<(String, UserInfo)>, ContractError>(ContractError::Unauthorized {}),
        r is Ok ==> {
            let records = r->Ok_0@;
            &&& records.len() == users@.len()
            &&& forall|i: int| 0 <= i < records.len() ==> {
                &&& (#[trigger] records[i]).0 == users@[i].address
                &&& records[i].1 == (UserInfo {
                    allocation: users@[i].allocation,
                    spent: users@[i].spent,
                    received_amount: 0,
                })
            }
        },
{
    if !(info.sender == state.owner) {
        return Err(ContractError::Unauthorized {});
    }
    let mut records: Vec<(String, UserInfo)> = Vec::new();
    let mut i: usize = 0;
    while i < users.len()
        invariant
            i <= users@.len(),
            records@.len() == i,
            forall|j: int| 0 <= j < i ==> {
                &&& (#[trigger] records@[j]).0 == users@[j].address
                &&& records@[j].1 == (UserInfo {
                    allocation: users@[j].allocation,
                    spent: users@[j].spent,
                    received_amount: 0,
                })
            },
        decreases users@.len() - i,
    {
        let user = &users[i];
        records.push((
            user.address.clone(),
            UserInfo { allocation: user.allocation, spent: user.spent, received_amount: 0 },
        ));
        i += 1;
    }
    Ok(records)
}

/// The receipt amount for a payment of `pay_amount`; `None` where the
/// product of the payment and the price's numerator exceeds 128 bits.
pub fn receive_amount(sale: &SaleConfig, pay_amount: u128) -> (r: Option<u128>)
    requires
        sale.price_pay_amount > 0,
    ensures
        r is Some <==> pay_amount * sale.price_receive_amount <= u128::MAX,
        r is Some ==> r->0 == price(*sale, pay_amount as int),
{
    match pay_amount.checked_mul(sale.price_receive_amount) {
        Some(product) => Some(product / sale.price_pay_amount),
        None => None,
    }
}

/// The first two rules of a purchase: the sale is open at `time`, and the
/// funds sent are one non-zero coin in the payment denomination, whose amount
/// is returned.
pub fn accepted_payment(sale: &SaleConfig, info: &MessageInfo, time: Timestamp) -> (r: Result<u128, ContractError>)
    ensures
        !sale.active(time) ==> r == Err::<u128, ContractError>(ContractError::SaleNotActive {}),
        sale.active(time) && !pays_exactly_in(info.funds@, sale.pay_denom@)
            ==> r == Err::<u128, ContractError>(ContractError::MissingFunds {}),
        r is Ok <==> sale.active(time) && pays_exactly_in(info.funds@, sale.pay_denom@),
        r is Ok ==> r->Ok_0 == info.funds@[0].amount,
{
    if !sale.is_active(time) {
        return Err(ContractError::SaleNotActive {});
    }
    match must_pay(info, &sale.pay_denom) {
        Ok(amount) => Ok(amount),
        Err(_) => Err(ContractError::MissingFunds {}),
    }
}

/// The sender buys with the funds sent along. The purchase is checked
/// against the rules of `purchase_error`, in order, and rejected by the first
/// one it breaks. An accepted purchase adds the payment to the buyer's spent
/// amount and to the sale's total, and its receipt amount to what the buyer
/// has received, all in one result: on any error no record changes.
pub fn buy(
    sale: &SaleConfig,
    sale_data: &SaleData,
    user: &UserInfo,
    info: &MessageInfo,
    time: Timestamp,
) -> (r: Result<(SaleData, UserInfo, u128), ContractError>)
    requires
        sale.price_pay_amount > 0,
        sale_data.total_spent <= sale.max_supply,
        user.allocation != 0 ==> user.spent <= user.allocation,
    ensures
        ({
            let rejected = purchase_error(*sale, *sale_data, *user, info.funds@, time);
            let payment = info.funds@[0].amount;
            &&& rejected is Some ==> r == Err::<(SaleData, UserInfo, u128), ContractError>(rejected->0)
            &&& rejected is None && !receipt_fits(*sale, *user, payment as int)
                ==> r == Err::<(SaleData, UserInfo, u128), ContractError>(ContractError::Overflow {})
            &&& r is Ok <==> rejected is None && receipt_fits(*sale, *user, payment as int)
            &&& r is Ok ==> {
                let (new_data, new_user, tokens) = r->Ok_0;
                &&& tokens == price(*sale, payment as int)
                &&& new_user.allocation == user.allocation
                &&& new_user.spent == user.spent + payment
                &&& new_user.received_amount == user.received_amount + tokens
                &&& new_user.spent <= new_user.allocation
                &&& new_data.total_spent == sale_data.total_spent + payment
                &&& new_data.total_spent <= sale.max_supply
            }
        }),
{
    let funds = accepted_payment(sale, info, time)?;
    if user.allocation == 0 {
        return Err(ContractError::NotParticipating {});
    }
    if funds > user.available_allocation() {
        return Err(ContractError::UserAllocationExceeded {
            wanted: funds,
            max: user.available_allocation(),
        });
    }
    if funds > sale.max_supply - sale_data.total_spent {
        return Err(ContractError::SaleAllocationExceeded {
            wanted: funds,
            max: sale.max_supply - sale_data.total_spent,
        });
    }
    let total_tokens = match receive_amount(sale, funds) {
        Some(tokens) => tokens,
        None => return Err(ContractError::Overflow {}),
    };
    let received_amount = match user.received_amount.checked_add(total_tokens) {
        Some(received) => received,
        None => return Err(ContractError::Overflow {}),
    };
    let new_data = SaleData { total_spent: sale_data.total_spent + funds };
    let new_user = UserInfo {
        allocation: user.allocation,
        spent: user.spent + funds,
        received_amount,
    };
    Ok((new_data, new_user, total_tokens))
}

/// The owner sends `funds` out of the contract to `to`.
pub fn withdraw(state: &State, info: &MessageInfo, to: String, funds: Vec<Coin>) -> (r: Result<BankSend, ContractError>)
    ensures
        r == (if info.sender@ == state.owner@ {
            Ok(BankSend { to_address: to, amount: funds })
        } else {
            Err::<BankSend, ContractError>(ContractError::Unauthorized {})
        }),
{
    if !(info.sender == state.owner) {
        return Err(ContractError::Unauthorized {});
    }
    Ok(BankSend { to_address: to, amount: funds })
}

/// A buyer's record as reported for `address`: the stored one, or all zeros
/// where none is stored.
pub fn user(address: String, stored: Option<UserInfo>) -> (r: UserInfoRes)
    ensures
        r.address == address,
        ({
            let record = match stored {
                Some(u) => u,
                None => UserInfo { allocation: 0, spent: 0, received_amount: 0 },
            };
            &&& r.allocation == record.allocation
            &&& r.spent == record.spent
            &&& r.received_amount == record.received_amount
        }),
{
    let record = match stored {
        Some(u) => u,
        None => UserInfo { allocation: 0, spent: 0, received_amount: 0 },
    };
    UserInfoRes {
        address,
        allocation: record.allocation,
        spent: record.spent,
        received_amount: record.received_amount,
    }
}

/// The stored `(address, record)` pairs as reported records, in the same order.
pub fn users(entries: &Vec<(String, UserInfo)>) -> (r: Vec<UserInfoRes>)
    ensures
        r@.len() == entries@.len(),
        forall|i: int| 0 <= i < r@.len() ==> {
            let (address, record) = entries@[i];
            &&& (#[trigger] r@[i]).address == address
            &&& r@[i].allocation == record.allocation
            &&& r@[i].spent == record.spent
            &&& r@[i].received_amount == record.received_amount
        },
{
    let mut r: Vec<UserInfoRes> = Vec::new();
    let mut i: usize = 0;
    while i < entries.len()
        invariant
            i <= entries@.len(),
            r@.len() == i,
            forall|j: int| 0 <= j < i ==> {
                let (address, record) = entries@[j];
                &&& (#[trigger] r@[j]).address == address
                &&& r@[j].allocation == record.allocation
                &&& r@[j].spent == record.spent
                &&& r@[j].received_amount == record.received_amount
            },
        decreases entries@.len() - i,
    {
        let (address, record) = &entries[i];
        r.push(UserInfoRes {
            address: address.clone(),
            allocation: record.allocation,
            spent: record.spent,
            received_amount: record.received_amount,
        });
        i += 1;
    }
    r
}

} // verus!
