//! The vesting claim contract: each beneficiary's reward unlocks along a
//! cliff-plus-linear curve and can be withdrawn as it unlocks.

pub mod contract;
pub mod error;
pub mod lemmas;
pub mod msg;
pub mod state;
