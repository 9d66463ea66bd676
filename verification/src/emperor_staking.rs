//! The collateral ledger: discrete staked items, paid per item and interval.

pub mod state;
pub mod metadata;
pub mod user;
pub mod stake;
pub mod vault;
