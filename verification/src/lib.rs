//! Two staking ledgers and the reward-accrual engine they share.
//!
//! The collateral ledger (`emperor_staking`) tracks discrete staked items per
//! participant and pays a fixed amount per item and payout interval. The pool
//! ledger (`spl_staking`) tracks fungible balances in one table and shares a
//! daily payout among the participants in proportion to their stake.
//!
//! Every operation takes the ledger records and the current time as plain
//! values, applies its state change only when every check has been passed, and
//! hands back the value transfers that the caller has to carry out.

pub mod pubkey;
pub mod errors;
pub mod auth;
pub mod fee;
pub mod accrual;
pub mod close;
pub mod emperor_staking;
pub mod spl_staking;
