use vstd::prelude::*;

verus! {

/// Why an action of the claim contract was rejected.
#[derive(Clone, Copy, Debug, PartialEq, Eq, Structural)]
pub enum ContractError {
    /// The sender is not the owner.
    Unauthorized {},
    /// Claims are paused, or vesting has not started yet.
    NotActive {},
    /// The amounts involved do not fit the ledger's 128-bit arithmetic, or
    /// the schedule divides by a zero interval.
    Overflow {},
}

} // verus!
