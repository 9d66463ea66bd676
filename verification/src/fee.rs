//! The fee gate: what a fee-bearing operation charges before it proceeds.

use vstd::prelude::*;
use crate::pubkey::Pubkey;

verus! {

/// A value transfer that the caller carries out on the ledger's behalf.
#[derive(Clone, Copy, Debug, PartialEq, Eq)]
pub struct FeeTransfer {
    /// The wallet that receives the fee.
    pub destination: Pubkey,
    /// The amount to move, never zero.
    pub amount: u64,
}

/// The transfer owed for a configured fee: none when the fee is zero,
/// otherwise the whole fee to the configured destination.
pub open spec fn fee_due(destination: Pubkey, fee: u64) -> Option<FeeTransfer> {
    if fee > 0 {
        Some(FeeTransfer { destination, amount: fee })
    } else {
        None
    }
}

/// Decides whether a fee has to be moved before the operation itself. The fee
/// transfer is separate from the transfer of the staked asset.
pub fn fee_charge(destination: Pubkey, fee: u64) -> (r: Option<FeeTransfer>)
    ensures
        r == fee_due(destination, fee),
{
    if fee > 0 {
        Some(FeeTransfer { destination, amount: fee })
    } else {
        None
    }
}

} // verus!
