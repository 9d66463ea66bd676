//! Closing a record: its balance goes to the closing signer.

use vstd::prelude::*;
use crate::errors::CustomError;

verus! {

/// Moves the whole balance of a closed record to the destination. Returns the
/// new balances of destination and record, the latter always zero, and is
/// refused when the destination's balance would leave the `u64` range.
pub fn close_pda(dest_lamports: u64, source_lamports: u64) -> (r: Result<(u64, u64), CustomError>)
    ensures
        match r {
            Ok((dest, source)) => dest == dest_lamports + source_lamports && source == 0,
            Err(e) => e == CustomError::ArithmeticFault && dest_lamports + source_lamports > u64::MAX,
        },
{
    match dest_lamports.checked_add(source_lamports) {
        Some(total) => Ok((total, 0)),
        None => Err(CustomError::ArithmeticFault),
    }
}

} // verus!
