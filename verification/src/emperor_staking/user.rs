//! A participant's record: creation, accrual and claiming.

use vstd::prelude::*;
use crate::accrual::{accrued, rewards_accrued};
use crate::errors::CustomError;
use crate::pubkey::Pubkey;
use crate::emperor_staking::state::{StakedNft, User, Vault, MAX_NFT_PER_USER};

verus! {

/// The reward a record has earned between `last_update_time` and
/// `current_time`: elapsed time, times the record's aggregate rate, over the
/// vault's payout interval.
pub open spec fn rewards_earned(current_time: u64, last_update_time: u64, staker_account: User, vault: Vault) -> Option<u64> {
    accrued(current_time, last_update_time, staker_account.total_reward_rate, vault.payout_interval)
}

/// The pending reward of a record once the reward earned up to `now` has been
/// added to it. There is none when the accrual has none or the sum leaves the
/// `u64` range.
pub open spec fn pending_after(staker_account: User, vault: Vault, now: u64) -> Option<u64> {
    match rewards_earned(now, staker_account.last_update_time, staker_account, vault) {
        Some(earned) => if staker_account.reward_earned_pending + earned <= u64::MAX {
            Some((staker_account.reward_earned_pending + earned) as u64)
        } else {
            None
        },
        None => None,
    }
}

/// The record after an accrual flush at `now`: the pending reward brought up
/// to date and the accrual time moved to `now`. A flush that cannot be
/// computed leaves the record as it is.
pub open spec fn flushed(staker_account: User, vault: Vault, now: u64) -> User {
    match pending_after(staker_account, vault, now) {
        Some(pending) => User { reward_earned_pending: pending, last_update_time: now, ..staker_account },
        None => staker_account,
    }
}

/// What a claim at `now` pays: the pending reward brought up to date. There is
/// nothing to pay when that cannot be computed, when the claimed total would
/// leave the `u64` range, or when the pool holds less.
pub open spec fn claimable(staker_account: User, vault: Vault, now: u64) -> Option<u64> {
    match pending_after(staker_account, vault, now) {
        Some(payable) => if staker_account.reward_earned_claimed + payable <= u64::MAX && payable <= vault.total_amount {
            Some(payable)
        } else {
            None
        },
        None => None,
    }
}

/// Creates the record of a participant: zeroed, with its owner set.
pub fn handle_create_stake_account(user: Pubkey) -> (r: User)
    ensures
        r == User::fresh(user),
        r.wf(),
        r.rates_consistent(),
{
    User {
        user,
        reward_earned_pending: 0,
        reward_earned_claimed: 0,
        mint_staked_count: 0,
        staked_items: [StakedNft::default(); MAX_NFT_PER_USER],
        last_update_time: 0,
        total_reward_rate: 0,
    }
}

/// Computes the reward earned by the staker since the last accrual.
pub fn get_rewards_earned(current_time: u64, last_update_time: u64, staker_account: &User, vault: &Vault) -> (r: Result<u64, CustomError>)
    ensures
        match r {
            Ok(earned) => rewards_earned(current_time, last_update_time, *staker_account, *vault) == Some(earned),
            Err(e) => e == CustomError::ArithmeticFault
                && rewards_earned(current_time, last_update_time, *staker_account, *vault) is None,
        },
{
    rewards_accrued(current_time, last_update_time, staker_account.total_reward_rate, vault.payout_interval)
}

/// Computes the pending reward as of `now` without touching the record.
pub fn pending_rewards(staker_account: &User, vault: &Vault, now: u64) -> (r: Result<u64, CustomError>)
    ensures
        match r {
            Ok(pending) => pending_after(*staker_account, *vault, now) == Some(pending),
            Err(e) => e == CustomError::ArithmeticFault && pending_after(*staker_account, *vault, now) is None,
        },
{
    let earned = get_rewards_earned(now, staker_account.last_update_time, staker_account, vault)?;
    match staker_account.reward_earned_pending.checked_add(earned) {
        Some(pending) => Ok(pending),
        None => Err(CustomError::ArithmeticFault),
    }
}

/// Flushes the accrual: adds the reward earned since the last accrual to the
/// pending reward and moves the accrual time to `now`, so that a later change
/// of rate counts only for the time after it.
pub fn flush_rewards(staker_account: &mut User, vault: &Vault, now: u64) -> (r: Result<(), CustomError>)
    ensures
        *final(staker_account) == flushed(*old(staker_account), *vault, now),
        r is Ok <==> pending_after(*old(staker_account), *vault, now) is Some,
        r is Err ==> r == Err::<(), CustomError>(CustomError::ArithmeticFault),
        old(staker_account).wf() ==> final(staker_account).wf(),
        old(staker_account).rates_consistent() ==> final(staker_account).rates_consistent(),
{
    let pending = pending_rewards(staker_account, vault, now)?;
    staker_account.reward_earned_pending = pending;
    staker_account.last_update_time = now;
    Ok(())
}

/// Computes what a claim at `now` would pay without touching any record.
pub fn claim_preview(staker_account: &User, vault: &Vault, now: u64) -> (r: Result<u64, CustomError>)
    ensures
        match r {
            Ok(payable) => claimable(*staker_account, *vault, now) == Some(payable),
            Err(e) => e == CustomError::ArithmeticFault && claimable(*staker_account, *vault, now) is None,
        },
{
    let payable = pending_rewards(staker_account, vault, now)?;
    if staker_account.reward_earned_claimed.checked_add(payable).is_none() {
        return Err(CustomError::ArithmeticFault);
    }
    if payable > vault.total_amount {
        return Err(CustomError::ArithmeticFault);
    }
    Ok(payable)
}

/// Claims the rewards of a record: flushes the accrual, pays out the whole
/// pending reward, adds it to the claimed total and takes it from the pool
/// balance. Returns the amount that the caller has to move from the pool to
/// the participant. A claim that the pool cannot cover is refused and changes
/// nothing.
pub fn handle_claim_rewards(vault: &mut Vault, staker_account: &mut User, now: u64) -> (r: Result<u64, CustomError>)
    ensures
        match r {
            Ok(payable) => {
                &&& claimable(*old(staker_account), *old(vault), now) == Some(payable)
                &&& payable <= old(vault).total_amount
                &&& *final(vault) == (Vault { total_amount: (old(vault).total_amount - payable) as u64, ..*old(vault) })
                &&& *final(staker_account) == (User {
                    reward_earned_pending: 0,
                    reward_earned_claimed: (old(staker_account).reward_earned_claimed + payable) as u64,
                    last_update_time: now,
                    ..*old(staker_account)
                })
            },
            Err(e) => {
                &&& e == CustomError::ArithmeticFault
                &&& claimable(*old(staker_account), *old(vault), now) is None
                &&& *final(vault) == *old(vault)
                &&& *final(staker_account) == *old(staker_account)
            },
        },
        old(staker_account).wf() ==> final(staker_account).wf(),
        old(staker_account).rates_consistent() ==> final(staker_account).rates_consistent(),
{
    let payable = claim_preview(staker_account, vault, now)?;
    staker_account.reward_earned_pending = 0;
    staker_account.last_update_time = now;
    staker_account.reward_earned_claimed = staker_account.reward_earned_claimed + payable;
    vault.total_amount = vault.total_amount - payable;
    Ok(payable)
}

/// A flush with no time elapsed since the last accrual changes no field of the
/// record, so a second flush at the time of the first changes nothing.
pub proof fn lemma_flush_idempotent(staker_account: User, vault: Vault, now: u64)
    ensures
        flushed(staker_account, vault, staker_account.last_update_time) == staker_account,
        flushed(flushed(staker_account, vault, now), vault, now) == flushed(staker_account, vault, now),
{
    let once = flushed(staker_account, vault, now);
    assert(flushed(once, vault, once.last_update_time) == once) by {
        lemma_flush_at_accrual_time(once, vault);
    }
    lemma_flush_at_accrual_time(staker_account, vault);
}

/// A flush at the record's own accrual time changes no field.
pub proof fn lemma_flush_at_accrual_time(staker_account: User, vault: Vault)
    ensures
        flushed(staker_account, vault, staker_account.last_update_time) == staker_account,
{
    let t = staker_account.last_update_time;
    assert((t - t) * staker_account.total_reward_rate == 0) by (nonlinear_arith);
    if vault.payout_interval > 0 {
        assert(0int / (vault.payout_interval as int) == 0) by (nonlinear_arith)
            requires vault.payout_interval > 0;
    }
}

} // verus!
