//! Records of the collateral ledger.

use vstd::prelude::*;
use crate::pubkey::Pubkey;

verus! {

/// Slots in a participant's record.
pub const MAX_NFT_PER_USER: usize = 150;

/// The configuration and the aggregate counters of one deployment.
#[derive(Clone, Debug, PartialEq, Eq)]
pub struct Vault {
    /// The unique name of the deployment.
    pub name: String,
    /// Who may change the configuration, drain the pool and unstake on a
    /// participant's behalf.
    pub authority: Pubkey,
    /// The creator that a collateral item must be attested by.
    pub creator_address: Pubkey,
    /// Where fees go.
    pub community_wallet: Pubkey,
    /// Aggregate of rewards earned.
    pub total_earned: u64,
    /// Seconds per payout.
    pub payout_interval: u64,
    /// What one item earns per payout interval.
    pub payout_amount: u64,
    /// Items staked over all participants.
    pub total_staked: u32,
    /// The pool balance from which rewards are paid.
    pub total_amount: u64,
    /// Charged on each stake.
    pub stake_fee: u64,
    /// Charged on each unstake.
    pub unstake_fee: u64,
    /// Part of the record's derived address.
    pub bump: u8,
}

/// One staked collateral item.
#[derive(Clone, Copy, Debug, PartialEq, Eq)]
pub struct StakedNft {
    /// The collateral item.
    pub mint: Pubkey,
    /// The amount the item earns per payout interval.
    pub reward_rate: u64,
    /// When the item was staked.
    pub staked_time: u64,
}

impl StakedNft {
    /// The content of an unused slot.
    pub open spec fn zero() -> StakedNft {
        StakedNft { mint: Pubkey::zero(), reward_rate: 0, staked_time: 0 }
    }

    /// Whether this is the content of an unused slot.
    pub fn is_zero(&self) -> (r: bool)
        ensures
            r == (*self == StakedNft::zero()),
    {
        let zero = Pubkey::default();
        self.mint.equals(&zero) && self.reward_rate == 0 && self.staked_time == 0
    }
}

impl Default for StakedNft {
    fn default() -> (r: StakedNft)
        ensures
            r == StakedNft::zero(),
    {
        StakedNft { mint: Pubkey::default(), reward_rate: 0, staked_time: 0 }
    }
}

/// The sum of the reward rates in the first `n` slots.
pub open spec fn rate_sum(items: Seq<StakedNft>, n: int) -> int
    decreases n,
{
    if n <= 0 {
        0
    } else {
        rate_sum(items, n - 1) + items[n - 1].reward_rate
    }
}

/// The first slot at or after `start` and before `count` that holds `mint`,
/// or `count` when there is none.
pub open spec fn slot_from(items: Seq<StakedNft>, count: int, mint: Pubkey, start: int) -> int
    decreases count - start,
{
    if start >= count {
        count
    } else if items[start].mint == mint {
        start
    } else {
        slot_from(items, count, mint, start + 1)
    }
}

/// A participant's record: pending and claimed rewards and the staked items.
#[derive(Clone, Copy, Debug, PartialEq, Eq)]
pub struct User {
    /// The participant.
    pub user: Pubkey,
    /// Rewards earned and not yet claimed, as of the last accrual.
    pub reward_earned_pending: u64,
    /// Rewards paid out so far.
    pub reward_earned_claimed: u64,
    /// The staked items; the active ones come first, in no fixed order.
    pub staked_items: [StakedNft; MAX_NFT_PER_USER],
    /// When rewards were last accrued.
    pub last_update_time: u64,
    /// What the active items earn together per payout interval.
    pub total_reward_rate: u64,
    /// How many slots are active.
    pub mint_staked_count: u32,
}

impl User {
    /// The record of a participant who has never staked.
    pub open spec fn fresh(user: Pubkey) -> User {
        User {
            user,
            reward_earned_pending: 0,
            reward_earned_claimed: 0,
            staked_items: [StakedNft::zero(); MAX_NFT_PER_USER],
            last_update_time: 0,
            total_reward_rate: 0,
            mint_staked_count: 0,
        }
    }

    /// The shape every record keeps: at most 150 active slots, no item in two
    /// active slots, and every slot behind the active ones zeroed.
    pub open spec fn wf(&self) -> bool {
        &&& self.mint_staked_count <= MAX_NFT_PER_USER
        &&& forall|i: int, j: int|
            0 <= i < j < self.mint_staked_count ==> self.staked_items[i].mint != self.staked_items[j].mint
        &&& forall|i: int|
            self.mint_staked_count <= i < MAX_NFT_PER_USER ==> self.staked_items[i] == StakedNft::zero()
    }

    /// The aggregate reward rate is the sum of the active items' rates.
    pub open spec fn rates_consistent(&self) -> bool {
        self.total_reward_rate == rate_sum(self.staked_items@, self.mint_staked_count as int)
    }

    /// The active slot that holds `mint`, or the number of active slots when
    /// the item is not staked.
    pub open spec fn slot_of(&self, mint: Pubkey) -> int {
        slot_from(self.staked_items@, self.mint_staked_count as int, mint, 0)
    }

    /// Whether `mint` is among the active items.
    pub open spec fn holds(&self, mint: Pubkey) -> bool {
        self.slot_of(mint) < self.mint_staked_count
    }

    /// Looks for `mint` among the active items, front to back.
    pub fn find_slot(&self, mint: &Pubkey) -> (r: usize)
        requires
            self.mint_staked_count <= MAX_NFT_PER_USER,
        ensures
            r == self.slot_of(*mint),
            r <= self.mint_staked_count,
            r < self.mint_staked_count ==> self.staked_items[r as int].mint == *mint,
            forall|j: int| 0 <= j < r ==> self.staked_items[j].mint != *mint,
    {
        let count = self.mint_staked_count as usize;
        let mut i: usize = 0;
        while i < count
            invariant
                i <= count,
                count == self.mint_staked_count,
                count <= MAX_NFT_PER_USER,
                self.slot_of(*mint) == slot_from(self.staked_items@, count as int, *mint, i as int),
                forall|j: int| 0 <= j < i ==> self.staked_items[j].mint != *mint,
            decreases count - i,
        {
            if self.staked_items[i].mint.equals(mint) {
                return i;
            }
            i += 1;
        }
        count
    }

    /// Tests the shape that every operation on a record relies on.
    pub fn is_valid(&self) -> (r: bool)
        ensures
            r == self.wf(),
    {
        if self.mint_staked_count as usize > MAX_NFT_PER_USER {
            return false;
        }
        let count = self.mint_staked_count as usize;
        let mut i: usize = 0;
        while i < count
            invariant
                i <= count,
                count == self.mint_staked_count,
                count <= MAX_NFT_PER_USER,
                forall|a: int, b: int| 0 <= a < b < i ==> self.staked_items[a].mint != self.staked_items[b].mint,
            decreases count - i,
        {
            let mut k: usize = 0;
            while k < i
                invariant
                    k <= i,
                    i < count,
                    count == self.mint_staked_count,
                    count <= MAX_NFT_PER_USER,
                    forall|a: int| 0 <= a < k ==> self.staked_items[a].mint != self.staked_items[i as int].mint,
                decreases i - k,
            {
                if self.staked_items[k].mint.equals(&self.staked_items[i].mint) {
                    assert(self.staked_items[k as int].mint == self.staked_items[i as int].mint);
                    return false;
                }
                k += 1;
            }
            i += 1;
        }
        let mut t: usize = count;
        while t < MAX_NFT_PER_USER
            invariant
                count <= t <= MAX_NFT_PER_USER,
                count == self.mint_staked_count,
                forall|a: int| count <= a < t ==> self.staked_items[a] == StakedNft::zero(),
            decreases MAX_NFT_PER_USER - t,
        {
            if !self.staked_items[t].is_zero() {
                assert(self.staked_items[t as int] != StakedNft::zero());
                return false;
            }
            t += 1;
        }
        true
    }
}

impl User {
    /// Tests whether the aggregate reward rate is the sum of the active items'
    /// rates.
    pub fn has_consistent_rates(&self) -> (r: bool)
        requires
            self.mint_staked_count <= MAX_NFT_PER_USER,
        ensures
            r == self.rates_consistent(),
    {
        let count = self.mint_staked_count as usize;
        let mut sum: u128 = 0;
        let mut i: usize = 0;
        while i < count
            invariant
                i <= count,
                count == self.mint_staked_count,
                count <= MAX_NFT_PER_USER,
                sum == rate_sum(self.staked_items@, i as int),
                sum <= i * 0xffff_ffff_ffff_ffff,
            decreases count - i,
        {
            sum = sum + self.staked_items[i].reward_rate as u128;
            i += 1;
        }
        sum == self.total_reward_rate as u128
    }
}

impl Default for User {
    fn default() -> (r: User)
        ensures
            r == User::fresh(Pubkey::zero()),
            r.wf(),
            r.rates_consistent(),
    {
        User {
            user: Pubkey::default(),
            reward_earned_pending: 0,
            reward_earned_claimed: 0,
            mint_staked_count: 0,
            staked_items: [StakedNft::default(); MAX_NFT_PER_USER],
            last_update_time: 0,
            total_reward_rate: 0,
        }
    }
}

/// What `slot_from` finds lies between `start` and `count`, holds `mint` when
/// it is a slot, and no slot between `start` and it holds `mint`.
pub proof fn lemma_slot_from(items: Seq<StakedNft>, count: int, mint: Pubkey, start: int)
    requires
        0 <= start <= count,
    ensures
        start <= slot_from(items, count, mint, start) <= count,
        slot_from(items, count, mint, start) < count ==> items[slot_from(items, count, mint, start)].mint == mint,
        forall|j: int| start <= j < slot_from(items, count, mint, start) ==> items[j].mint != mint,
    decreases count - start,
{
    if start < count && items[start].mint != mint {
        lemma_slot_from(items, count, mint, start + 1);
    }
}

/// Writing one slot changes the sum of the first `n` rates by the difference
/// of the two rates when the slot is among them, and not at all otherwise.
pub proof fn lemma_rate_sum_update(items: Seq<StakedNft>, n: int, i: int, item: StakedNft)
    requires
        0 <= n <= items.len(),
        0 <= i < items.len(),
    ensures
        rate_sum(items.update(i, item), n) == if i < n {
            rate_sum(items, n) - items[i].reward_rate + item.reward_rate
        } else {
            rate_sum(items, n)
        },
    decreases n,
{
    if n > 0 {
        lemma_rate_sum_update(items, n - 1, i, item);
    }
}

} // verus!
