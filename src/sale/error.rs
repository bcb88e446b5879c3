use vstd::prelude::*;

verus! {

/// Why an action of the sale contract was rejected.
#[derive(Clone, Copy, Debug, PartialEq, Eq, Structural)]
pub enum ContractError {
    /// The sender is not the owner.
    Unauthorized {},
    /// The time is outside the sale's window.
    SaleNotActive {},
    /// The payment is not a single non-zero coin in the payment denomination.
    MissingFunds {},
    /// The buyer has no allocation.
    NotParticipating {},
    /// The payment exceeds what is left of the buyer's allocation (`max`).
    UserAllocationExceeded { wanted: u128, max: u128 },
    /// The payment exceeds what is left of the sale's cap (`max`).
    SaleAllocationExceeded { wanted: u128, max: u128 },
    /// The receipt amounts do not fit the ledger's 128-bit arithmetic.
    Overflow {},
}

} // verus!
