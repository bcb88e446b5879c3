use vstd::prelude::*;

use crate::timestamp::Timestamp;

verus! {

/// The contract's owner.
#[derive(Clone, Debug, PartialEq, Eq)]
pub struct State {
    pub owner: String,
}

/// The terms of the sale.
#[derive(Clone, Debug, PartialEq, Eq)]
pub struct SaleConfig {
    /// The sale is open from `start_time` (included) to `end_time` (excluded).
    pub start_time: Timestamp,
    pub end_time: Timestamp,
    /// The one denomination accepted as payment.
    pub pay_denom: String,
    /// The receipt token, for information.
    pub sale_denom: Option<String>,
    /// Cap on all payments taken together.
    pub max_supply: u128,
    /// A payment of `price_pay_amount` is credited `price_receive_amount`.
    pub price_pay_amount: u128,
    pub price_receive_amount: u128,
}

/// A buyer's cap, what they have paid, and what they have been credited.
#[derive(Clone, Copy, Debug, PartialEq, Eq, Structural)]
pub struct UserInfo {
    pub allocation: u128,
    pub spent: u128,
    pub received_amount: u128,
}

/// What the sale has taken in so far.
#[derive(Clone, Copy, Debug, PartialEq, Eq, Structural)]
pub struct SaleData {
    pub total_spent: u128,
}

impl SaleConfig {
    pub open spec fn active(self, time: Timestamp) -> bool {
        self.start_time.nanos <= time.nanos && time.nanos < self.end_time.nanos
    }

    /// Whether `time` lies in the sale's window.
    pub fn is_active(&self, time: Timestamp) -> (r: bool)
        ensures
            r == self.active(time),
    {
        self.start_time.nanos <= time.nanos && time.nanos < self.end_time.nanos
    }
}

impl UserInfo {
    /// What is left of the buyer's allocation.
    pub fn available_allocation(&self) -> (r: u128)
        requires
            self.spent <= self.allocation,
        ensures
            r == self.allocation - self.spent,
    {
        self.allocation - self.spent
    }
}

} // verus!
