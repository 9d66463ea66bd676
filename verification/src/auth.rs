//! The authorization layer: the capability checks that come before a
//! mutation.

use vstd::prelude::*;
use crate::errors::CustomError;
use crate::pubkey::Pubkey;

verus! {

/// Why a signer may not unstake from the record of `owner` on behalf of
/// `staker`, if so: the staker must own the record, and the signer must be the
/// staker or the vault's authority.
pub open spec fn unstake_denial(owner: Pubkey, authority: Pubkey, staker: Pubkey, signer: Pubkey) -> Option<
    CustomError,
> {
    if staker != owner {
        Some(CustomError::KeyMismatch)
    } else if staker != signer && signer != authority {
        Some(CustomError::Unauthorized)
    } else {
        None
    }
}

/// Admits only the holder of a capability: `signer` must be `authority`.
pub fn require_authority(authority: &Pubkey, signer: &Pubkey) -> (r: Result<(), CustomError>)
    ensures
        r is Ok <==> *authority == *signer,
        r is Err ==> r == Err::<(), CustomError>(CustomError::Unauthorized),
{
    if authority.equals(signer) {
        Ok(())
    } else {
        Err(CustomError::Unauthorized)
    }
}

/// Admits an unstake from the record of `owner` by its owner, or by the
/// vault's authority acting for the owner.
pub fn require_unstake_capability(owner: &Pubkey, authority: &Pubkey, staker: &Pubkey, signer: &Pubkey) -> (r: Result<
    (),
    CustomError,
>)
    ensures
        match unstake_denial(*owner, *authority, *staker, *signer) {
            Some(e) => r == Err::<(), CustomError>(e),
            None => r is Ok,
        },
{
    if !staker.equals(owner) {
        return Err(CustomError::KeyMismatch);
    }
    if !staker.equals(signer) && !signer.equals(authority) {
        return Err(CustomError::Unauthorized);
    }
    Ok(())
}

} // verus!
