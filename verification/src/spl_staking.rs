//! The pool ledger: fungible stakes sharing one daily payout.
//!
//! The operations here decide and record; the caller moves the assets. Each
//! returns what has to be moved, and a refused operation changes no record.

pub mod state;

use vstd::prelude::*;
use crate::emperor_staking::state as collateral;
use crate::emperor_staking::user::{claim_preview, claimable, handle_claim_rewards};
use crate::auth::require_authority;
use crate::errors::CustomError;
use crate::fee::{fee_charge, fee_due, FeeTransfer};
use crate::pubkey::Pubkey;
use crate::spl_staking::state::{FeeVault, Vault, MAX_STAKERS};

verus! {

/// What the caller has to carry out after a stake of claimed rewards.
#[derive(Clone, Copy, Debug, PartialEq, Eq)]
pub struct StakeWithClaimOutcome {
    /// The fee to move to the fee destination, if one is configured.
    pub fee: Option<FeeTransfer>,
    /// The amount that was claimed from the collateral ledger and staked.
    pub amount: u64,
}

/// Creates the record of the pool, with the signer as its authority, no
/// position and empty balances.
pub fn initialize_vault(authority: Pubkey, stake_token_mint: Pubkey, daily_payout_amount: u64, bump: u8) -> (r: Vault)
    ensures
        r == (Vault { authority, stake_token_mint, daily_payout_amount, bump, ..Vault::zero() }),
        r.wf(),
{
    let mut vault = Vault::default();
    vault.bump = bump;
    vault.stake_token_mint = stake_token_mint;
    vault.daily_payout_amount = daily_payout_amount;
    vault.authority = authority;
    vault
}

/// Why a change of the pool's configuration is refused, if it is: the signer
/// is not the pool's authority, or the accrual up to `now` is refused.
pub open spec fn update_vault_rejection(vault: Vault, authority: Pubkey, now: u64) -> Option<CustomError> {
    if vault.authority != authority {
        Some(CustomError::Unauthorized)
    } else if vault.update_faults(now) {
        Some(CustomError::ArithmeticFault)
    } else {
        None
    }
}

/// Replaces the configuration of the pool and hands it to `new_authority`.
/// Only the present authority may do so. The rewards are accrued up to `now`
/// at the daily payout that held until now, so the new daily payout counts
/// only for the time after `now`.
pub fn update_vault(
    vault: &mut Vault,
    authority: Pubkey,
    stake_token_mint: Pubkey,
    new_authority: Pubkey,
    daily_payout_amount: u64,
    now: u64,
) -> (r: Result<(), CustomError>)
    requires
        old(vault).wf(),
    ensures
        final(vault).wf(),
        match update_vault_rejection(*old(vault), authority, now) {
            Some(e) => r == Err::<(), CustomError>(e) && *final(vault) == *old(vault),
            None => {
                &&& r is Ok
                &&& *final(vault) == (Vault {
                    authority: new_authority,
                    stake_token_mint,
                    daily_payout_amount,
                    last_updated_time: now,
                    users: final(vault).users,
                    ..*old(vault)
                })
                &&& final(vault).users@ == old(vault).table_after_update(now)
            },
        },
{
    require_authority(&vault.authority, &authority)?;
    vault.update(now)?;
    vault.stake_token_mint = stake_token_mint;
    vault.daily_payout_amount = daily_payout_amount;
    vault.authority = new_authority;
    Ok(())
}

/// Records that `amount` was moved into the reward pool. Anyone may fund.
pub fn fund(vault: &mut Vault, amount: u64) -> (r: Result<(), CustomError>)
    ensures
        if old(vault).reward_pool_amount + amount <= u64::MAX {
            &&& r is Ok
            &&& *final(vault) == (Vault {
                reward_pool_amount: (old(vault).reward_pool_amount + amount) as u64,
                ..*old(vault)
            })
        } else {
            &&& r == Err::<(), CustomError>(CustomError::ArithmeticFault)
            &&& *final(vault) == *old(vault)
        },
        old(vault).wf() ==> final(vault).wf(),
{
    match vault.reward_pool_amount.checked_add(amount) {
        Some(total) => {
            vault.reward_pool_amount = total;
            Ok(())
        },
        None => Err(CustomError::ArithmeticFault),
    }
}

/// Takes `amount` out of the reward pool for `authority`, who must be the
/// pool's authority. The pool cannot give more than it holds.
pub fn withdraw(vault: &mut Vault, authority: Pubkey, amount: u64) -> (r: Result<(), CustomError>)
    ensures
        if old(vault).authority != authority {
            &&& r == Err::<(), CustomError>(CustomError::Unauthorized)
            &&& *final(vault) == *old(vault)
        } else if amount > old(vault).reward_pool_amount {
            &&& r == Err::<(), CustomError>(CustomError::ArithmeticFault)
            &&& *final(vault) == *old(vault)
        } else {
            &&& r is Ok
            &&& *final(vault) == (Vault {
                reward_pool_amount: (old(vault).reward_pool_amount - amount) as u64,
                ..*old(vault)
            })
        },
        old(vault).wf() ==> final(vault).wf(),
{
    require_authority(&vault.authority, &authority)?;
    match vault.reward_pool_amount.checked_sub(amount) {
        Some(total) => {
            vault.reward_pool_amount = total;
            Ok(())
        },
        None => Err(CustomError::ArithmeticFault),
    }
}

/// Stakes `amount` for `staker`. Returns the fee that the caller has to move
/// to the fee destination, apart from the staked amount itself, which it moves
/// into the pool. The fee changes no counter of the ledger.
pub fn stake(vault: &mut Vault, fee_vault: &FeeVault, staker: Pubkey, amount: u64, now: u64) -> (r: Result<
    Option<FeeTransfer>,
    CustomError,
>)
    requires
        old(vault).wf(),
    ensures
        final(vault).wf(),
        match old(vault).stake_rejection(now, staker, amount) {
            Some(e) => r == Err::<Option<FeeTransfer>, CustomError>(e) && *final(vault) == *old(vault),
            None => {
                &&& r == Ok::<Option<FeeTransfer>, CustomError>(fee_due(fee_vault.fee_wallet, fee_vault.stake_fee))
                &&& Vault::stake_applied(*old(vault), *final(vault), now, staker, amount)
            },
        },
        r is Ok ==> final(vault).total_staked_amount == old(vault).total_staked_amount + amount,
{
    let fee = fee_charge(fee_vault.fee_wallet, fee_vault.stake_fee);
    match vault.stake(now, staker, amount) {
        Ok(()) => Ok(fee),
        Err(e) => Err(e),
    }
}

/// Why a stake of claimed rewards is refused, if it is: the claim on the
/// collateral ledger is refused, or the stake of the claimed amount is.
pub open spec fn stake_with_claim_rejection(
    vault: Vault,
    emperor_vault: collateral::Vault,
    staker_account: collateral::User,
    staker: Pubkey,
    now: u64,
) -> Option<CustomError> {
    match claimable(staker_account, emperor_vault, now) {
        None => Some(CustomError::ArithmeticFault),
        Some(amount) => vault.stake_rejection(now, staker, amount),
    }
}

/// Claims the rewards of a record of the collateral ledger and stakes the
/// claimed amount in the pool for `staker`. The two steps stand or fall
/// together: when either is refused, none of the three records changes.
pub fn stake_with_claim(
    vault: &mut Vault,
    fee_vault: &FeeVault,
    emperor_vault: &mut collateral::Vault,
    staker_account: &mut collateral::User,
    staker: Pubkey,
    now: u64,
) -> (r: Result<StakeWithClaimOutcome, CustomError>)
    requires
        old(vault).wf(),
    ensures
        final(vault).wf(),
        old(staker_account).wf() ==> final(staker_account).wf(),
        old(staker_account).rates_consistent() ==> final(staker_account).rates_consistent(),
        match stake_with_claim_rejection(*old(vault), *old(emperor_vault), *old(staker_account), staker, now) {
            Some(e) => {
                &&& r == Err::<StakeWithClaimOutcome, CustomError>(e)
                &&& *final(vault) == *old(vault)
                &&& *final(emperor_vault) == *old(emperor_vault)
                &&& *final(staker_account) == *old(staker_account)
            },
            None => {
                let amount = claimable(*old(staker_account), *old(emperor_vault), now).unwrap();
                &&& r == Ok::<StakeWithClaimOutcome, CustomError>(
                    StakeWithClaimOutcome { fee: fee_due(fee_vault.fee_wallet, fee_vault.stake_fee), amount },
                )
                &&& Vault::stake_applied(*old(vault), *final(vault), now, staker, amount)
                &&& *final(emperor_vault) == (collateral::Vault {
                    total_amount: (old(emperor_vault).total_amount - amount) as u64,
                    ..*old(emperor_vault)
                })
                &&& *final(staker_account) == (collateral::User {
                    reward_earned_pending: 0,
                    reward_earned_claimed: (old(staker_account).reward_earned_claimed + amount) as u64,
                    last_update_time: now,
                    ..*old(staker_account)
                })
            },
        },
{
    let fee = fee_charge(fee_vault.fee_wallet, fee_vault.stake_fee);
    let amount = claim_preview(staker_account, emperor_vault, now)?;
    vault.stake(now, staker, amount)?;
    match handle_claim_rewards(emperor_vault, staker_account, now) {
        Ok(claimed) => Ok(StakeWithClaimOutcome { fee, amount: claimed }),
        Err(e) => Err(e),
    }
}

/// Takes `amount` out of the stake of `staker`, who must hold that much.
/// Returns the fee that the caller has to move to the fee destination, apart
/// from the unstaked amount itself, which it moves back to the staker.
pub fn unstake(vault: &mut Vault, fee_vault: &FeeVault, staker: Pubkey, amount: u64, now: u64) -> (r: Result<
    Option<FeeTransfer>,
    CustomError,
>)
    requires
        old(vault).wf(),
    ensures
        final(vault).wf(),
        match old(vault).unstake_rejection(now, staker, amount) {
            Some(e) => r == Err::<Option<FeeTransfer>, CustomError>(e) && *final(vault) == *old(vault),
            None => {
                &&& r == Ok::<Option<FeeTransfer>, CustomError>(fee_due(fee_vault.fee_wallet, fee_vault.unstake_fee))
                &&& Vault::unstake_applied(*old(vault), *final(vault), now, staker, amount)
            },
        },
        r is Ok ==> final(vault).total_staked_amount == old(vault).total_staked_amount - amount,
{
    let fee = fee_charge(fee_vault.fee_wallet, fee_vault.unstake_fee);
    match vault.unstake(now, staker, amount) {
        Ok(()) => Ok(fee),
        Err(e) => Err(e),
    }
}

/// Pays out what `staker` has earned. Returns the amount that the caller has
/// to move from the reward pool to the staker; it never exceeds what the pool
/// held before the call, and the pool shrinks by exactly that amount.
pub fn claim(vault: &mut Vault, staker: Pubkey, now: u64) -> (r: Result<u64, CustomError>)
    requires
        old(vault).wf(),
    ensures
        final(vault).wf(),
        match old(vault).claim_rejection(now, staker) {
            Some(e) => r == Err::<u64, CustomError>(e) && *final(vault) == *old(vault),
            None => {
                &&& r == Ok::<u64, CustomError>(old(vault).claim_amount(now, staker))
                &&& old(vault).claim_amount(now, staker) <= old(vault).reward_pool_amount
                &&& final(vault).reward_pool_amount == old(vault).reward_pool_amount - old(vault).claim_amount(
                    now,
                    staker,
                )
                &&& Vault::claim_applied(*old(vault), *final(vault), now, staker)
            },
        },
{
    vault.claim(now, staker)
}

/// Creates the fee configuration of a pool. Only the pool's authority may do
/// so, and the configuration records that authority.
pub fn initialize_fee_vault(
    vault: &Vault,
    authority: Pubkey,
    fee_wallet: Pubkey,
    stake_fee: u64,
    unstake_fee: u64,
    bump: u8,
) -> (r: Result<FeeVault, CustomError>)
    ensures
        r == if vault.authority == authority {
            Ok::<FeeVault, CustomError>(FeeVault { fee_wallet, stake_fee, unstake_fee, authority: vault.authority, bump })
        } else {
            Err::<FeeVault, CustomError>(CustomError::Unauthorized)
        },
{
    require_authority(&vault.authority, &authority)?;
    Ok(FeeVault { fee_wallet, stake_fee, unstake_fee, authority: vault.authority, bump })
}

/// Replaces the fees and their destination. Only the pool's authority may do
/// so, and the configuration then records that authority, whatever it
/// recorded before.
pub fn update_fee_vault(
    fee_vault: &mut FeeVault,
    vault: &Vault,
    authority: Pubkey,
    fee_wallet: Pubkey,
    stake_fee: u64,
    unstake_fee: u64,
) -> (r: Result<(), CustomError>)
    ensures
        if vault.authority == authority {
            &&& r is Ok
            &&& *final(fee_vault) == (FeeVault {
                fee_wallet,
                stake_fee,
                unstake_fee,
                authority: vault.authority,
                ..*old(fee_vault)
            })
            &&& final(fee_vault).authority == vault.authority
        } else {
            &&& r == Err::<(), CustomError>(CustomError::Unauthorized)
            &&& *final(fee_vault) == *old(fee_vault)
        },
{
    require_authority(&vault.authority, &authority)?;
    fee_vault.fee_wallet = fee_wallet;
    fee_vault.stake_fee = stake_fee;
    fee_vault.unstake_fee = unstake_fee;
    fee_vault.authority = vault.authority;
    Ok(())
}

/// A table with every slot taken refuses a participant without a position,
/// whatever the amount.
pub proof fn lemma_full_table_refuses_newcomer(vault: Vault, now: u64, key: Pubkey, amount: u64)
    requires
        vault.wf(),
        vault.total_user_count == MAX_STAKERS,
        vault.position_of(key) >= vault.total_user_count,
    ensures
        vault.stake_rejection(now, key, amount) is Some,
        !vault.update_faults(now) ==> vault.stake_rejection(now, key, amount) == Some(CustomError::MaxStaked),
{
}

} // verus!
