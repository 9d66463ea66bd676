//! The vault of the collateral ledger: configuration, authority and pool.

use vstd::prelude::*;
use crate::auth::require_authority;
use crate::errors::CustomError;
use crate::pubkey::Pubkey;
use crate::emperor_staking::state::Vault;

verus! {

/// Creates the vault of a deployment, with the signer as its authority, an
/// empty pool and nothing staked.
pub fn handle_vault_initialization(
    authority: Pubkey,
    vault_name: String,
    creator_address: Pubkey,
    payout_interval: u64,
    payout_amount: u64,
    community_wallet: Pubkey,
    stake_fee: u64,
    unstake_fee: u64,
    bump: u8,
) -> (r: Vault)
    ensures
        r == (Vault {
            name: vault_name,
            authority,
            creator_address,
            community_wallet,
            total_earned: 0,
            payout_interval,
            payout_amount,
            total_staked: 0,
            total_amount: 0,
            stake_fee,
            unstake_fee,
            bump,
        }),
{
    Vault {
        name: vault_name,
        authority,
        creator_address,
        community_wallet,
        total_earned: 0,
        payout_interval,
        payout_amount,
        total_staked: 0,
        total_amount: 0,
        stake_fee,
        unstake_fee,
        bump,
    }
}

/// Replaces the configuration of a vault. Only the vault's authority may do
/// so; the counters, the name and the authority stay as they are.
pub fn handle_vault_update(
    vault: &mut Vault,
    authority: Pubkey,
    creator_address: Pubkey,
    payout_interval: u64,
    payout_amount: u64,
    community_wallet: Pubkey,
    stake_fee: u64,
    unstake_fee: u64,
) -> (r: Result<(), CustomError>)
    ensures
        if old(vault).authority == authority {
            &&& r is Ok
            &&& *final(vault) == (Vault {
                creator_address,
                community_wallet,
                payout_interval,
                payout_amount,
                stake_fee,
                unstake_fee,
                ..*old(vault)
            })
        } else {
            &&& r == Err::<(), CustomError>(CustomError::Unauthorized)
            &&& *final(vault) == *old(vault)
        },
{
    require_authority(&vault.authority, &authority)?;
    vault.creator_address = creator_address;
    vault.community_wallet = community_wallet;
    vault.payout_interval = payout_interval;
    vault.payout_amount = payout_amount;
    vault.stake_fee = stake_fee;
    vault.unstake_fee = unstake_fee;
    Ok(())
}

/// Records that `amount` was moved into the pool. Anyone may fund.
pub fn handle_fund(vault: &mut Vault, amount: u64) -> (r: Result<(), CustomError>)
    ensures
        if old(vault).total_amount + amount <= u64::MAX {
            &&& r is Ok
            &&& *final(vault) == (Vault { total_amount: (old(vault).total_amount + amount) as u64, ..*old(vault) })
        } else {
            &&& r == Err::<(), CustomError>(CustomError::ArithmeticFault)
            &&& *final(vault) == *old(vault)
        },
{
    match vault.total_amount.checked_add(amount) {
        Some(total) => {
            vault.total_amount = total;
            Ok(())
        },
        None => Err(CustomError::ArithmeticFault),
    }
}

/// Takes `amount` out of the pool for `funder`, who must be the vault's
/// authority. The pool cannot give more than it holds.
pub fn handle_drain(vault: &mut Vault, funder: Pubkey, amount: u64) -> (r: Result<(), CustomError>)
    ensures
        if old(vault).authority != funder {
            &&& r == Err::<(), CustomError>(CustomError::Unauthorized)
            &&& *final(vault) == *old(vault)
        } else if amount > old(vault).total_amount {
            &&& r == Err::<(), CustomError>(CustomError::ArithmeticFault)
            &&& *final(vault) == *old(vault)
        } else {
            &&& r is Ok
            &&& *final(vault) == (Vault { total_amount: (old(vault).total_amount - amount) as u64, ..*old(vault) })
        },
{
    require_authority(&vault.authority, &funder)?;
    match vault.total_amount.checked_sub(amount) {
        Some(total) => {
            vault.total_amount = total;
            Ok(())
        },
        None => Err(CustomError::ArithmeticFault),
    }
}

/// Hands the vault over to `new_authority`. Only the present authority may do
/// so.
pub fn handle_set_vault_authority(vault: &mut Vault, authority: Pubkey, new_authority: Pubkey) -> (r: Result<(), CustomError>)
    ensures
        if old(vault).authority == authority {
            &&& r is Ok
            &&& *final(vault) == (Vault { authority: new_authority, ..*old(vault) })
        } else {
            &&& r == Err::<(), CustomError>(CustomError::Unauthorized)
            &&& *final(vault) == *old(vault)
        },
{
    require_authority(&vault.authority, &authority)?;
    vault.authority = new_authority;
    Ok(())
}

} // verus!
