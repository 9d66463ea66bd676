//! Staking and unstaking of collateral items.

use vstd::prelude::*;
use crate::auth::{require_unstake_capability, unstake_denial};
use crate::errors::CustomError;
use crate::fee::{fee_charge, fee_due, FeeTransfer};
use crate::pubkey::Pubkey;
use crate::emperor_staking::metadata::{attested_creators, creators_of};
use crate::emperor_staking::state::{
    lemma_rate_sum_update, lemma_slot_from, slot_from, StakedNft, User, Vault, MAX_NFT_PER_USER,
};
use crate::emperor_staking::user::{flushed, lemma_flush_at_accrual_time, pending_after, pending_rewards};

verus! {

/// Which of the two changes `update_accounts` applies.
#[derive(Clone, Copy, Debug, PartialEq, Eq, Structural)]
pub enum StakeMethod {
    Stake,
    Unstake,
}

/// What the caller has to carry out after an unstake.
#[derive(Clone, Copy, Debug, PartialEq, Eq)]
pub struct UnstakeOutcome {
    /// The fee to move to the fee destination, if one is configured.
    pub fee: Option<FeeTransfer>,
    /// Whether the delegation over the item is cleared: it is when the owner
    /// unstakes, and stays when the authority does so on the owner's behalf.
    pub revoke_delegation: bool,
}

/// Whether the bookkeeping of a stake would leave the range of a counter.
pub open spec fn stake_faults(vault: Vault, staker_account: User, now: u64) -> bool {
    ||| pending_after(staker_account, vault, now) is None
    ||| vault.total_staked + 1 > u32::MAX
    ||| staker_account.total_reward_rate + vault.payout_amount > u64::MAX
}

/// Whether the bookkeeping of an unstake would leave the range of a counter.
pub open spec fn unstake_faults(vault: Vault, staker_account: User, now: u64) -> bool {
    ||| pending_after(staker_account, vault, now) is None
    ||| vault.total_staked == 0
    ||| staker_account.total_reward_rate < vault.payout_amount
}

/// The records after `mint` has been staked at `now`: the accrual flushed, the
/// item appended behind the active ones at the vault's current rate, and the
/// three counters raised.
pub open spec fn stake_applied(
    pre_vault: Vault,
    pre_account: User,
    post_vault: Vault,
    post_account: User,
    mint: Pubkey,
    now: u64,
) -> bool {
    &&& post_vault == (Vault { total_staked: (pre_vault.total_staked + 1) as u32, ..pre_vault })
    &&& post_account == (User {
        reward_earned_pending: pending_after(pre_account, pre_vault, now).unwrap(),
        last_update_time: now,
        staked_items: post_account.staked_items,
        mint_staked_count: (pre_account.mint_staked_count + 1) as u32,
        total_reward_rate: (pre_account.total_reward_rate + pre_vault.payout_amount) as u64,
        ..pre_account
    })
    &&& post_account.staked_items@ == pre_account.staked_items@.update(
        pre_account.mint_staked_count as int,
        StakedNft { mint, reward_rate: pre_vault.payout_amount, staked_time: now },
    )
}

/// The records after `mint` has been unstaked at `now`: the accrual flushed,
/// the last active item moved into the slot of `mint`, the last active slot
/// zeroed, and the three counters lowered. The order of the items is not kept.
pub open spec fn unstake_applied(
    pre_vault: Vault,
    pre_account: User,
    post_vault: Vault,
    post_account: User,
    mint: Pubkey,
    now: u64,
) -> bool {
    let last = pre_account.mint_staked_count - 1;
    &&& post_vault == (Vault { total_staked: (pre_vault.total_staked - 1) as u32, ..pre_vault })
    &&& post_account == (User {
        reward_earned_pending: pending_after(pre_account, pre_vault, now).unwrap(),
        last_update_time: now,
        staked_items: post_account.staked_items,
        mint_staked_count: last as u32,
        total_reward_rate: (pre_account.total_reward_rate - pre_vault.payout_amount) as u64,
        ..pre_account
    })
    &&& post_account.staked_items@ == pre_account.staked_items@.update(
        pre_account.slot_of(mint),
        pre_account.staked_items[last],
    ).update(last, StakedNft::zero())
}

/// Why a stake is refused, if it is. The checks come in this order: a full
/// record, an item that the vault's creator did not attest, an item already
/// staked in this record, a counter that would leave its range.
pub open spec fn stake_rejection(
    vault: Vault,
    staker_account: User,
    mint: Pubkey,
    creators: Seq<Pubkey>,
    now: u64,
) -> Option<CustomError> {
    if staker_account.mint_staked_count >= MAX_NFT_PER_USER {
        Some(CustomError::MaxStaked)
    } else if !creators.contains(vault.creator_address) {
        Some(CustomError::WrongNFT)
    } else if staker_account.holds(mint) {
        Some(CustomError::AlreadyStaked)
    } else if stake_faults(vault, staker_account, now) {
        Some(CustomError::ArithmeticFault)
    } else {
        None
    }
}

/// Why an unstake is refused, if it is. The checks come in this order: a
/// staker who does not own the record, a signer who is neither the staker nor
/// the vault's authority, an item that is not among the active ones, a counter
/// that would leave its range.
pub open spec fn unstake_rejection(
    vault: Vault,
    staker_account: User,
    staker: Pubkey,
    signer: Pubkey,
    mint: Pubkey,
    now: u64,
) -> Option<CustomError> {
    match unstake_denial(staker_account.user, vault.authority, staker, signer) {
        Some(denial) => Some(denial),
        None => if !staker_account.holds(mint) {
            Some(CustomError::Unauthorized)
        } else if unstake_faults(vault, staker_account, now) {
            Some(CustomError::ArithmeticFault)
        } else {
            None
        },
    }
}

/// Whether `wanted` is among `creators`.
fn creator_listed(creators: &Vec<Pubkey>, wanted: &Pubkey) -> (r: bool)
    ensures
        r == creators@.contains(*wanted),
{
    let mut found = false;
    let mut i: usize = 0;
    while i < creators.len()
        invariant
            i <= creators.len(),
            found == exists|j: int| 0 <= j < i && creators@[j] == *wanted,
        decreases creators.len() - i,
    {
        if creators[i].equals(wanted) {
            found = true;
        }
        i += 1;
    }
    found
}

/// Flushes the accrual of a record and then applies a stake or an unstake of
/// `token_mint` to the record and to the vault's counter. A stake needs a free
/// slot and an item that is not yet staked; an unstake needs a staked item.
pub fn update_accounts(
    method: StakeMethod,
    vault: &mut Vault,
    staker_account: &mut User,
    token_mint: Pubkey,
    now: u64,
) -> (r: Result<(), CustomError>)
    requires
        old(staker_account).wf(),
        method == StakeMethod::Stake ==> old(staker_account).mint_staked_count < MAX_NFT_PER_USER
            && !old(staker_account).holds(token_mint),
        method == StakeMethod::Unstake ==> old(staker_account).holds(token_mint),
    ensures
        final(staker_account).wf(),
        match method {
            StakeMethod::Stake => if stake_faults(*old(vault), *old(staker_account), now) {
                &&& r == Err::<(), CustomError>(CustomError::ArithmeticFault)
                &&& *final(vault) == *old(vault)
                &&& *final(staker_account) == *old(staker_account)
            } else {
                &&& r is Ok
                &&& stake_applied(*old(vault), *old(staker_account), *final(vault), *final(staker_account), token_mint, now)
                &&& old(staker_account).rates_consistent() ==> final(staker_account).rates_consistent()
            },
            StakeMethod::Unstake => if unstake_faults(*old(vault), *old(staker_account), now) {
                &&& r == Err::<(), CustomError>(CustomError::ArithmeticFault)
                &&& *final(vault) == *old(vault)
                &&& *final(staker_account) == *old(staker_account)
            } else {
                &&& r is Ok
                &&& unstake_applied(*old(vault), *old(staker_account), *final(vault), *final(staker_account), token_mint, now)
                &&& old(staker_account).rates_consistent()
                    && old(staker_account).staked_items[old(staker_account).slot_of(token_mint)].reward_rate
                    == old(vault).payout_amount ==> final(staker_account).rates_consistent()
            },
        },
{
    let pending = pending_rewards(staker_account, vault, now)?;
    let ghost before = *staker_account;
    let ghost before_vault = *vault;
    proof {
        lemma_slot_from(before.staked_items@, before.mint_staked_count as int, token_mint, 0);
    }
    match method {
        StakeMethod::Stake => {
            let total_staked = match vault.total_staked.checked_add(1) {
                Some(v) => v,
                None => { return Err(CustomError::ArithmeticFault); },
            };
            let total_reward_rate = match staker_account.total_reward_rate.checked_add(vault.payout_amount) {
                Some(v) => v,
                None => { return Err(CustomError::ArithmeticFault); },
            };
            let index = staker_account.mint_staked_count as usize;
            let item = StakedNft { mint: token_mint, reward_rate: vault.payout_amount, staked_time: now };
            staker_account.reward_earned_pending = pending;
            staker_account.last_update_time = now;
            vault.total_staked = total_staked;
            staker_account.mint_staked_count = staker_account.mint_staked_count + 1;
            staker_account.staked_items[index] = item;
            staker_account.total_reward_rate = total_reward_rate;
            proof {
                lemma_stake_keeps_invariant(before_vault, before, *vault, *staker_account, token_mint, now);
            }
        },
        StakeMethod::Unstake => {
            let total_staked = match vault.total_staked.checked_sub(1) {
                Some(v) => v,
                None => { return Err(CustomError::ArithmeticFault); },
            };
            let total_reward_rate = match staker_account.total_reward_rate.checked_sub(vault.payout_amount) {
                Some(v) => v,
                None => { return Err(CustomError::ArithmeticFault); },
            };
            let index = staker_account.find_slot(&token_mint);
            let last_index = (staker_account.mint_staked_count - 1) as usize;
            let moved = staker_account.staked_items[last_index];
            staker_account.reward_earned_pending = pending;
            staker_account.last_update_time = now;
            vault.total_staked = total_staked;
            staker_account.mint_staked_count = staker_account.mint_staked_count - 1;
            staker_account.staked_items[index] = moved;
            staker_account.staked_items[last_index] = StakedNft::default();
            staker_account.total_reward_rate = total_reward_rate;
            proof {
                lemma_unstake_keeps_invariant(before_vault, before, *vault, *staker_account, token_mint, now);
            }
        },
    }
    Ok(())
}

/// Stakes the collateral item `token_mint`, whose metadata record holds the
/// bytes `nft_metadata`, into a participant's record. The item is accepted
/// when the record attests the vault's creator; a record that cannot be read
/// or lists no creators attests nobody. Returns the fee that the caller has to
/// move to the fee destination before it delegates and freezes the item.
pub fn handle_stake(
    vault: &mut Vault,
    staker_account: &mut User,
    token_mint: Pubkey,
    nft_metadata: &[u8],
    now: u64,
) -> (r: Result<Option<FeeTransfer>, CustomError>)
    requires
        old(staker_account).wf(),
    ensures
        final(staker_account).wf(),
        old(staker_account).mint_staked_count == MAX_NFT_PER_USER ==> r == Err::<Option<FeeTransfer>, CustomError>(
            CustomError::MaxStaked,
        ),
        match stake_rejection(*old(vault), *old(staker_account), token_mint, attested_creators(nft_metadata@), now) {
            Some(e) => {
                &&& r == Err::<Option<FeeTransfer>, CustomError>(e)
                &&& *final(vault) == *old(vault)
                &&& *final(staker_account) == *old(staker_account)
            },
            None => {
                &&& r == Ok::<Option<FeeTransfer>, CustomError>(fee_due(old(vault).community_wallet, old(vault).stake_fee))
                &&& stake_applied(*old(vault), *old(staker_account), *final(vault), *final(staker_account), token_mint, now)
                &&& old(staker_account).rates_consistent() ==> final(staker_account).rates_consistent()
            },
        },
{
    if staker_account.mint_staked_count as usize >= MAX_NFT_PER_USER {
        return Err(CustomError::MaxStaked);
    }
    let creators = creators_of(nft_metadata);
    stake_attested(vault, staker_account, token_mint, &creators, now)
}

/// Stakes the collateral item `token_mint`, whose attested creators are
/// `creators`, into a participant's record. Returns the fee that the caller has
/// to move to the fee destination before it delegates and freezes the item.
/// The fee changes no counter of the ledger.
pub fn stake_attested(
    vault: &mut Vault,
    staker_account: &mut User,
    token_mint: Pubkey,
    creators: &Vec<Pubkey>,
    now: u64,
) -> (r: Result<Option<FeeTransfer>, CustomError>)
    requires
        old(staker_account).wf(),
    ensures
        final(staker_account).wf(),
        old(staker_account).mint_staked_count == MAX_NFT_PER_USER ==> r == Err::<Option<FeeTransfer>, CustomError>(
            CustomError::MaxStaked,
        ),
        match stake_rejection(*old(vault), *old(staker_account), token_mint, creators@, now) {
            Some(e) => {
                &&& r == Err::<Option<FeeTransfer>, CustomError>(e)
                &&& *final(vault) == *old(vault)
                &&& *final(staker_account) == *old(staker_account)
            },
            None => {
                &&& r == Ok::<Option<FeeTransfer>, CustomError>(fee_due(old(vault).community_wallet, old(vault).stake_fee))
                &&& stake_applied(*old(vault), *old(staker_account), *final(vault), *final(staker_account), token_mint, now)
                &&& old(staker_account).rates_consistent() ==> final(staker_account).rates_consistent()
            },
        },
{
    if staker_account.mint_staked_count as usize >= MAX_NFT_PER_USER {
        return Err(CustomError::MaxStaked);
    }
    if !creator_listed(creators, &vault.creator_address) {
        return Err(CustomError::WrongNFT);
    }
    if staker_account.find_slot(&token_mint) < staker_account.mint_staked_count as usize {
        return Err(CustomError::AlreadyStaked);
    }
    let fee = fee_charge(vault.community_wallet, vault.stake_fee);
    match update_accounts(StakeMethod::Stake, vault, staker_account, token_mint, now) {
        Ok(()) => Ok(fee),
        Err(e) => Err(e),
    }
}

/// Unstakes the collateral item `token_mint` from the record of `staker`, at
/// the request of `signer`: the staker, or the vault's authority on the
/// staker's behalf. Returns the fee that the caller has to move before it thaws
/// the item, and whether it then clears the delegation.
pub fn handle_unstake(
    vault: &mut Vault,
    staker_account: &mut User,
    staker: Pubkey,
    signer: Pubkey,
    token_mint: Pubkey,
    now: u64,
) -> (r: Result<UnstakeOutcome, CustomError>)
    requires
        old(staker_account).wf(),
    ensures
        final(staker_account).wf(),
        match unstake_rejection(*old(vault), *old(staker_account), staker, signer, token_mint, now) {
            Some(e) => {
                &&& r == Err::<UnstakeOutcome, CustomError>(e)
                &&& *final(vault) == *old(vault)
                &&& *final(staker_account) == *old(staker_account)
            },
            None => {
                &&& r == Ok::<UnstakeOutcome, CustomError>(
                    UnstakeOutcome {
                        fee: fee_due(old(vault).community_wallet, old(vault).unstake_fee),
                        revoke_delegation: staker == signer,
                    },
                )
                &&& unstake_applied(*old(vault), *old(staker_account), *final(vault), *final(staker_account), token_mint, now)
                &&& old(staker_account).rates_consistent()
                    && old(staker_account).staked_items[old(staker_account).slot_of(token_mint)].reward_rate
                    == old(vault).payout_amount ==> final(staker_account).rates_consistent()
            },
        },
{
    require_unstake_capability(&staker_account.user, &vault.authority, &staker, &signer)?;
    let by_owner = staker.equals(&signer);
    if staker_account.find_slot(&token_mint) >= staker_account.mint_staked_count as usize {
        return Err(CustomError::Unauthorized);
    }
    let fee = fee_charge(vault.community_wallet, vault.unstake_fee);
    match update_accounts(StakeMethod::Unstake, vault, staker_account, token_mint, now) {
        Ok(()) => Ok(UnstakeOutcome { fee, revoke_delegation: by_owner }),
        Err(e) => Err(e),
    }
}

/// A record with every slot taken refuses every further stake as over
/// capacity, whatever the item, the attestation and the time.
pub proof fn lemma_full_record_refuses_stake(
    vault: Vault,
    staker_account: User,
    mint: Pubkey,
    creators: Seq<Pubkey>,
    now: u64,
)
    requires
        staker_account.wf(),
        staker_account.mint_staked_count == MAX_NFT_PER_USER,
    ensures
        stake_rejection(vault, staker_account, mint, creators, now) == Some(CustomError::MaxStaked),
{
}

/// A stake keeps the shape of a record, and keeps the aggregate reward rate
/// equal to the sum of the active items' rates.
pub proof fn lemma_stake_keeps_invariant(
    pre_vault: Vault,
    pre_account: User,
    post_vault: Vault,
    post_account: User,
    mint: Pubkey,
    now: u64,
)
    requires
        pre_account.wf(),
        pre_account.mint_staked_count < MAX_NFT_PER_USER,
        !pre_account.holds(mint),
        !stake_faults(pre_vault, pre_account, now),
        stake_applied(pre_vault, pre_account, post_vault, post_account, mint, now),
    ensures
        post_account.wf(),
        pre_account.rates_consistent() ==> post_account.rates_consistent(),
{
    let count = pre_account.mint_staked_count as int;
    let item = StakedNft { mint, reward_rate: pre_vault.payout_amount, staked_time: now };
    lemma_slot_from(pre_account.staked_items@, count, mint, 0);
    lemma_rate_sum_update(pre_account.staked_items@, count, count, item);
}

/// An unstake keeps the shape of a record. It keeps the aggregate reward rate
/// equal to the sum of the active items' rates when the item was staked at the
/// payout amount that the vault has now.
pub proof fn lemma_unstake_keeps_invariant(
    pre_vault: Vault,
    pre_account: User,
    post_vault: Vault,
    post_account: User,
    mint: Pubkey,
    now: u64,
)
    requires
        pre_account.wf(),
        pre_account.holds(mint),
        !unstake_faults(pre_vault, pre_account, now),
        unstake_applied(pre_vault, pre_account, post_vault, post_account, mint, now),
    ensures
        post_account.wf(),
        pre_account.rates_consistent() && pre_account.staked_items[pre_account.slot_of(mint)].reward_rate
            == pre_vault.payout_amount ==> post_account.rates_consistent(),
{
    let count = pre_account.mint_staked_count as int;
    let index = pre_account.slot_of(mint);
    let last = count - 1;
    let s0 = pre_account.staked_items@;
    let moved = s0[last];
    let s1 = s0.update(index, moved);
    lemma_slot_from(s0, count, mint, 0);
    lemma_rate_sum_update(s0, count, index, moved);
    lemma_rate_sum_update(s1, count, last, StakedNft::zero());
    assert(s1[last] == moved);
}

/// A stake and an unstake move the vault's count of staked items and the
/// record's count of active items by the same amount.
pub proof fn lemma_counts_move_together(
    pre_vault: Vault,
    pre_account: User,
    post_vault: Vault,
    post_account: User,
    mint: Pubkey,
    now: u64,
)
    requires
        pre_account.wf(),
        (!stake_faults(pre_vault, pre_account, now) && pre_account.mint_staked_count < MAX_NFT_PER_USER
            && stake_applied(pre_vault, pre_account, post_vault, post_account, mint, now)) || (!unstake_faults(
            pre_vault,
            pre_account,
            now,
        ) && pre_account.holds(mint) && unstake_applied(pre_vault, pre_account, post_vault, post_account, mint, now)),
    ensures
        post_vault.total_staked - post_account.mint_staked_count == pre_vault.total_staked
            - pre_account.mint_staked_count,
{
    lemma_slot_from(pre_account.staked_items@, pre_account.mint_staked_count as int, mint, 0);
}

/// An unstake right after the stake of the same item, with no time in
/// between and an unchanged configuration, gives back the record and the vault
/// as they were before the stake, but for the accrual flushed by the stake.
pub proof fn lemma_stake_then_unstake(
    vault: Vault,
    staker_account: User,
    staked_vault: Vault,
    staked_account: User,
    final_vault: Vault,
    final_account: User,
    mint: Pubkey,
    now: u64,
)
    requires
        staker_account.wf(),
        !staker_account.holds(mint),
        staker_account.mint_staked_count < MAX_NFT_PER_USER,
        !stake_faults(vault, staker_account, now),
        stake_applied(vault, staker_account, staked_vault, staked_account, mint, now),
        unstake_applied(staked_vault, staked_account, final_vault, final_account, mint, now),
    ensures
        staked_account.slot_of(mint) == staker_account.mint_staked_count,
        !unstake_faults(staked_vault, staked_account, now),
        final_vault == vault,
        final_account == flushed(staker_account, vault, now),
{
    let count = staker_account.mint_staked_count as int;
    lemma_slot_from(staker_account.staked_items@, count, mint, 0);
    lemma_slot_unchanged_prefix(staker_account.staked_items@, staked_account.staked_items@, count, mint, 0);
    lemma_flush_at_accrual_time(staked_account, staked_vault);
    assert(final_account.staked_items@ =~= staker_account.staked_items@);
    assert(final_account.staked_items =~= staker_account.staked_items);
}

/// A search that finds nothing in the first `count` slots of one table finds
/// the item in slot `count` of a table that agrees on those slots and holds
/// the item there.
pub proof fn lemma_slot_unchanged_prefix(a: Seq<StakedNft>, b: Seq<StakedNft>, count: int, mint: Pubkey, start: int)
    requires
        0 <= start <= count < a.len(),
        a.len() == b.len(),
        forall|i: int| start <= i < count ==> a[i] == b[i],
        slot_from(a, count, mint, start) == count,
        b[count].mint == mint,
    ensures
        slot_from(b, count + 1, mint, start) == count,
    decreases count - start,
{
    if start < count {
        lemma_slot_unchanged_prefix(a, b, count, mint, start + 1);
    }
}

} // verus!
