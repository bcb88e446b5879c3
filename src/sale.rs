//! The capped sale contract: buyers pay in one denomination and are credited
//! a receipt amount at a fixed price, within their own allocation and within
//! the sale's overall cap.

pub mod contract;
pub mod error;
pub mod msg;
pub mod state;
