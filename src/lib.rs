//! Ledger engines of two on-chain contracts: a vesting claim engine that
//! releases rewards along a cliff-plus-linear curve, and a capped sale engine
//! that converts payments into a receipt token at a fixed price.
//!
//! Every engine is a pure function from record snapshots to new records:
//! loading and storing them, and performing transfers, is left to the host.

pub mod bank;
pub mod claim;
pub mod sale;
pub mod timestamp;
