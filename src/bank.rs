//! Funds as the ledgers see them: coins sent along with a message, and the
//! transfers that the host performs once a state change has been committed.

use vstd::prelude::*;

verus! {

/// An amount of one denomination.
#[derive(Clone, Debug, PartialEq, Eq)]
pub struct Coin {
    pub denom: String,
    pub amount: u128,
}

/// Who sent a message, and the funds sent along with it.
#[derive(Clone, Debug, PartialEq, Eq)]
pub struct MessageInfo {
    pub sender: String,
    pub funds: Vec<Coin>,
}

/// A transfer of funds from the contract to `to_address`.
#[derive(Clone, Debug, PartialEq, Eq)]
pub struct BankSend {
    pub to_address: String,
    pub amount: Vec<Coin>,
}

/// A single coin of `amount` in `denom`.
pub fn coins(amount: u128, denom: String) -> (r: Vec<Coin>)
    ensures
        r@ == seq![Coin { denom, amount }],
{
    let mut r = Vec::new();
    r.push(Coin { denom, amount });
    r
}

/// The error of cw_utils's payment checks, carried as an opaque value.
#[verifier::external_type_specification]
#[verifier::external_body]
pub struct ExPaymentError(cw_utils::PaymentError);

/// Whether `funds` is a single non-zero coin in `denom`.
pub open spec fn pays_exactly_in(funds: Seq<Coin>, denom: Seq<char>) -> bool {
    &&& funds.len() == 1
    &&& funds[0].amount != 0
    &&& funds[0].denom@ == denom
}

/// Relies on cw_utils::must_pay: it succeeds exactly when one coin was sent,
/// with a non-zero amount and in `denom`, and then returns that amount.
#[verifier::external_body]
pub(crate) fn must_pay(info: &MessageInfo, denom: &String) -> (r: Result<u128, cw_utils::PaymentError>)
    ensures
        r is Ok <==> pays_exactly_in(info.funds@, denom@),
        r is Ok ==> r->Ok_0 == info.funds@[0].amount,
{
    let info = cosmwasm_std::MessageInfo {
        sender: cosmwasm_std::Addr::unchecked(info.sender.as_str()),
        funds: info.funds.iter().map(|c| cosmwasm_std::Coin::new(c.amount, c.denom.as_str())).collect(),
    };
    cw_utils::must_pay(&info, denom.as_str()).map(|amount| amount.u128())
}

} // verus!
