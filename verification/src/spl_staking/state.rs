//! Records of the pool ledger and the whole-pool accrual.

use vstd::prelude::*;
use crate::errors::CustomError;
use crate::pubkey::Pubkey;

verus! {

/// Slots in the pool's table of participants.
pub const MAX_STAKERS: usize = 2000;

/// Seconds over which the daily payout is spread.
pub const SECONDS_PER_DAY: u64 = 86400;

/// One participant's position in the pool.
#[derive(Clone, Copy, Debug, PartialEq, Eq)]
pub struct User {
    /// The participant.
    pub key: Pubkey,
    /// What the participant has staked.
    pub staked_amount: u64,
    /// What the participant has earned and not yet claimed.
    pub earned_amount: u64,
}

impl User {
    /// The content of an unused slot.
    pub open spec fn zero() -> User {
        User { key: Pubkey::zero(), staked_amount: 0, earned_amount: 0 }
    }

    /// Whether this is the content of an unused slot.
    pub fn is_zero(&self) -> (r: bool)
        ensures
            r == (*self == User::zero()),
    {
        let zero = Pubkey::default();
        self.key.equals(&zero) && self.staked_amount == 0 && self.earned_amount == 0
    }
}

impl Default for User {
    fn default() -> (r: User)
        ensures
            r == User::zero(),
    {
        User { key: Pubkey::default(), staked_amount: 0, earned_amount: 0 }
    }
}

/// The fee configuration that belongs to a pool vault.
#[derive(Clone, Copy, Debug, PartialEq, Eq)]
pub struct FeeVault {
    /// Where fees go.
    pub fee_wallet: Pubkey,
    /// Charged on each stake.
    pub stake_fee: u64,
    /// Charged on each unstake.
    pub unstake_fee: u64,
    /// The authority of the owning vault, as of the creation and of every
    /// update of the configuration.
    pub authority: Pubkey,
    /// Part of the record's derived address.
    pub bump: u8,
}

/// The sum of the staked amounts in the first `n` slots.
pub open spec fn staked_sum(users: Seq<User>, n: int) -> int
    decreases n,
{
    if n <= 0 {
        0
    } else {
        staked_sum(users, n - 1) + users[n - 1].staked_amount
    }
}

/// The first slot at or after `start` and before `count` that belongs to
/// `key`, or `count` when there is none.
pub open spec fn position_from(users: Seq<User>, count: int, key: Pubkey, start: int) -> int
    decreases count - start,
{
    if start >= count {
        count
    } else if users[start].key == key {
        start
    } else {
        position_from(users, count, key, start + 1)
    }
}

/// A position's share of the payout for `elapsed` seconds: the daily payout
/// spread over the day and over the whole stake, in proportion to the
/// position's stake, rounded toward zero once at the end. An empty pool pays
/// nothing.
pub open spec fn pro_rata(daily_payout_amount: u64, elapsed: u64, staked_amount: u64, total_staked_amount: u64) -> int {
    if total_staked_amount == 0 {
        0
    } else {
        (daily_payout_amount * elapsed * staked_amount) / (SECONDS_PER_DAY * total_staked_amount)
    }
}

/// The single record of the pool: configuration, balances and the table of
/// positions.
#[derive(Clone, Copy, Debug, PartialEq, Eq)]
pub struct Vault {
    /// Who may change the configuration and withdraw from the reward pool.
    pub authority: Pubkey,
    /// The asset that is staked.
    pub stake_token_mint: Pubkey,
    /// The balance from which rewards are paid.
    pub reward_pool_amount: u64,
    /// The sum of all positions' stakes.
    pub total_staked_amount: u64,
    /// What the pool pays per day to all positions together.
    pub daily_payout_amount: u64,
    /// When rewards were last accrued; zero while the pool is untouched.
    pub last_updated_time: u64,
    /// The positions; the active ones come first.
    pub users: [User; MAX_STAKERS],
    /// How many slots are active.
    pub total_user_count: u16,
    /// Part of the record's derived address.
    pub bump: u8,
}

impl Vault {
    /// The record of a pool that nobody has touched.
    pub open spec fn zero() -> Vault {
        Vault {
            authority: Pubkey::zero(),
            stake_token_mint: Pubkey::zero(),
            reward_pool_amount: 0,
            total_staked_amount: 0,
            daily_payout_amount: 0,
            last_updated_time: 0,
            users: [User::zero(); MAX_STAKERS],
            total_user_count: 0,
            bump: 0,
        }
    }

    /// The shape the record keeps: at most 2000 active slots, the aggregate
    /// stake equal to the sum of the active positions' stakes, and every slot
    /// behind the active ones zeroed.
    pub open spec fn wf(&self) -> bool {
        &&& self.total_user_count <= MAX_STAKERS
        &&& self.total_staked_amount == staked_sum(self.users@, self.total_user_count as int)
        &&& forall|i: int| self.total_user_count <= i < MAX_STAKERS ==> self.users[i] == User::zero()
    }

    /// The active slot of `key`, or the number of active slots when `key` has
    /// no position.
    pub open spec fn position_of(&self, key: Pubkey) -> int {
        position_from(self.users@, self.total_user_count as int, key, 0)
    }

    /// Whether the accrual for the position in slot `i` at `now` would leave
    /// the range of the arithmetic: the product of daily payout, elapsed time
    /// and stake that of `u128`, or the earned amount that of `u64`.
    pub open spec fn position_faults(&self, now: u64, i: int) -> bool {
        let elapsed = (now - self.last_updated_time) as u64;
        self.total_staked_amount != 0 && (self.daily_payout_amount * elapsed * self.users[i].staked_amount
            > u128::MAX || self.users[i].earned_amount + pro_rata(
            self.daily_payout_amount,
            elapsed,
            self.users[i].staked_amount,
            self.total_staked_amount,
        ) > u64::MAX)
    }

    /// Whether the accrual at `now` is refused: the clock ran backwards, or
    /// the accrual of some active position would leave its range. The first
    /// touch of a pool accrues nothing and is never refused.
    pub open spec fn update_faults(&self, now: u64) -> bool {
        self.last_updated_time != 0 && (now < self.last_updated_time || exists|i: int|
            0 <= i < self.total_user_count && #[trigger] self.position_faults(now, i))
    }

    /// The table of positions after the accrual at `now`: every active
    /// position has earned its share for the time since the last accrual.
    pub open spec fn table_after_update(&self, now: u64) -> Seq<User> {
        if self.last_updated_time == 0 {
            self.users@
        } else {
            Seq::new(
                MAX_STAKERS as nat,
                |i: int|
                    if i < self.total_user_count {
                        User {
                            earned_amount: (self.users[i].earned_amount + pro_rata(
                                self.daily_payout_amount,
                                (now - self.last_updated_time) as u64,
                                self.users[i].staked_amount,
                                self.total_staked_amount,
                            )) as u64,
                            ..self.users[i]
                        }
                    } else {
                        self.users[i]
                    },
            )
        }
    }

    /// Whether `post` is the record `pre` after the accrual at `now`.
    pub open spec fn update_applied(pre: Vault, post: Vault, now: u64) -> bool {
        &&& post == (Vault { last_updated_time: now, users: post.users, ..pre })
        &&& post.users@ == pre.table_after_update(now)
    }

    /// Looks for the position of `key` among the active slots, front to back.
    pub fn find_position(&self, key: &Pubkey) -> (r: usize)
        requires
            self.total_user_count <= MAX_STAKERS,
        ensures
            r == self.position_of(*key),
            r <= self.total_user_count,
            r < self.total_user_count ==> self.users[r as int].key == *key,
            forall|j: int| 0 <= j < r ==> self.users[j].key != *key,
    {
        let count = self.total_user_count as usize;
        let mut i: usize = 0;
        while i < count
            invariant
                i <= count,
                count == self.total_user_count,
                count <= MAX_STAKERS,
                self.position_of(*key) == position_from(self.users@, count as int, *key, i as int),
                forall|j: int| 0 <= j < i ==> self.users[j].key != *key,
            decreases count - i,
        {
            if self.users[i].key.equals(key) {
                return i;
            }
            i += 1;
        }
        count
    }

    /// Tests the shape that every operation on the record relies on.
    pub fn is_valid(&self) -> (r: bool)
        ensures
            r == self.wf(),
    {
        if self.total_user_count as usize > MAX_STAKERS {
            return false;
        }
        let count = self.total_user_count as usize;
        let mut sum: u128 = 0;
        let mut i: usize = 0;
        while i < count
            invariant
                i <= count,
                count == self.total_user_count,
                count <= MAX_STAKERS,
                sum == staked_sum(self.users@, i as int),
                sum <= i * 0xffff_ffff_ffff_ffff,
            decreases count - i,
        {
            sum = sum + self.users[i].staked_amount as u128;
            i += 1;
        }
        if sum != self.total_staked_amount as u128 {
            return false;
        }
        let mut t: usize = count;
        while t < MAX_STAKERS
            invariant
                count <= t <= MAX_STAKERS,
                count == self.total_user_count,
                forall|a: int| count <= a < t ==> self.users[a] == User::zero(),
            decreases MAX_STAKERS - t,
        {
            if !self.users[t].is_zero() {
                assert(self.users[t as int] != User::zero());
                return false;
            }
            t += 1;
        }
        true
    }

    /// Accrues the rewards of the whole pool up to `now`. The first touch of
    /// a pool only records the time. After that every active position earns
    /// its share of the daily payout for the seconds since the last accrual.
    /// A refused accrual changes nothing.
    pub fn update(&mut self, now: u64) -> (r: Result<(), CustomError>)
        requires
            old(self).wf(),
        ensures
            final(self).wf(),
            if old(self).update_faults(now) {
                &&& r == Err::<(), CustomError>(CustomError::ArithmeticFault)
                &&& *final(self) == *old(self)
            } else {
                &&& r is Ok
                &&& Vault::update_applied(*old(self), *final(self), now)
            },
    {
        if self.last_updated_time == 0 {
            self.last_updated_time = now;
            return Ok(());
        }
        let elapsed = match now.checked_sub(self.last_updated_time) {
            Some(v) => v,
            None => { return Err(CustomError::ArithmeticFault); },
        };
        let count = self.total_user_count as usize;
        let mut users = self.users;
        if self.total_staked_amount != 0 {
            assert(self.daily_payout_amount * elapsed <= 0xffff_ffff_ffff_ffff * 0xffff_ffff_ffff_ffff)
                by (nonlinear_arith)
                requires
                    self.daily_payout_amount <= 0xffff_ffff_ffff_ffff,
                    elapsed <= 0xffff_ffff_ffff_ffff,
            ;
            let spread: u128 = self.daily_payout_amount as u128 * elapsed as u128;
            let whole: u128 = SECONDS_PER_DAY as u128 * self.total_staked_amount as u128;
            let mut i: usize = 0;
            while i < count
                invariant
                    i <= count,
                    *self == *old(self),
                    self.wf(),
                    count == self.total_user_count,
                    count <= MAX_STAKERS,
                    self.last_updated_time != 0,
                    self.total_staked_amount != 0,
                    elapsed == now - self.last_updated_time,
                    spread == self.daily_payout_amount * elapsed,
                    whole == SECONDS_PER_DAY * self.total_staked_amount,
                    forall|j: int| 0 <= j < i ==> !#[trigger] self.position_faults(now, j),
                    forall|j: int| 0 <= j < i ==> users@[j] == self.table_after_update(now)[j],
                    forall|j: int| i <= j < MAX_STAKERS ==> users@[j] == self.users@[j],
                decreases count - i,
            {
                let position = users[i];
                let scaled = match spread.checked_mul(position.staked_amount as u128) {
                    Some(v) => v,
                    None => {
                        assert(self.position_faults(now, i as int));
                        return Err(CustomError::ArithmeticFault);
                    },
                };
                let share: u128 = scaled / whole;
                if share > (u64::MAX - position.earned_amount) as u128 {
                    assert(self.position_faults(now, i as int));
                    return Err(CustomError::ArithmeticFault);
                }
                users[i] = User {
                    key: position.key,
                    staked_amount: position.staked_amount,
                    earned_amount: position.earned_amount + share as u64,
                };
                i += 1;
            }
        }
        proof {
            assert(users@ =~= self.table_after_update(now));
            lemma_staked_sum_same(self.users@, users@, count as int);
        }
        self.users = users;
        self.last_updated_time = now;
        Ok(())
    }
}

impl Vault {
    /// Why a stake of `amount` by `key` at `now` is refused, if it is: the
    /// accrual is refused, the aggregate stake would leave the `u64` range, or
    /// `key` has no position yet and every slot is taken.
    pub open spec fn stake_rejection(&self, now: u64, key: Pubkey, amount: u64) -> Option<CustomError> {
        if self.update_faults(now) {
            Some(CustomError::ArithmeticFault)
        } else if self.position_of(key) >= self.total_user_count && self.total_user_count >= MAX_STAKERS {
            Some(CustomError::MaxStaked)
        } else if self.total_staked_amount + amount > u64::MAX {
            Some(CustomError::ArithmeticFault)
        } else {
            None
        }
    }

    /// Whether `post` is the record `pre` after `key` has staked `amount` at
    /// `now`: the accrual applied, then the amount added to the position of
    /// `key`, or a new position appended behind the active ones, and the
    /// amount added to the aggregate stake.
    pub open spec fn stake_applied(pre: Vault, post: Vault, now: u64, key: Pubkey, amount: u64) -> bool {
        let table = pre.table_after_update(now);
        let slot = pre.position_of(key);
        let found = slot < pre.total_user_count;
        &&& post == (Vault {
            last_updated_time: now,
            users: post.users,
            total_staked_amount: (pre.total_staked_amount + amount) as u64,
            total_user_count: if found {
                pre.total_user_count
            } else {
                (pre.total_user_count + 1) as u16
            },
            ..pre
        })
        &&& post.users@ == if found {
            table.update(slot, User { staked_amount: (table[slot].staked_amount + amount) as u64, ..table[slot] })
        } else {
            table.update(slot, User { key, staked_amount: amount, earned_amount: 0 })
        }
    }

    /// What `key` has staked: the stake of its position, and nothing without
    /// a position.
    pub open spec fn staked_by(&self, key: Pubkey) -> u64 {
        if self.position_of(key) < self.total_user_count {
            self.users[self.position_of(key)].staked_amount
        } else {
            0
        }
    }

    /// Why an unstake of `amount` by `key` at `now` is refused, if it is: the
    /// accrual is refused, or `key` has staked less than `amount`. So a
    /// participant without a position can unstake nothing but zero.
    pub open spec fn unstake_rejection(&self, now: u64, key: Pubkey, amount: u64) -> Option<CustomError> {
        if self.update_faults(now) {
            Some(CustomError::ArithmeticFault)
        } else if amount > self.staked_by(key) {
            Some(CustomError::ArithmeticFault)
        } else {
            None
        }
    }

    /// Whether `post` is the record `pre` after `key` has unstaked `amount`
    /// at `now`: the accrual applied, then the amount taken from the position
    /// of `key` and from the aggregate stake. Without a position, where the
    /// amount can only be zero, only the accrual is applied.
    pub open spec fn unstake_applied(pre: Vault, post: Vault, now: u64, key: Pubkey, amount: u64) -> bool {
        let table = pre.table_after_update(now);
        let slot = pre.position_of(key);
        if slot < pre.total_user_count {
            &&& post == (Vault {
                last_updated_time: now,
                users: post.users,
                total_staked_amount: (pre.total_staked_amount - amount) as u64,
                ..pre
            })
            &&& post.users@ == table.update(
                slot,
                User { staked_amount: (table[slot].staked_amount - amount) as u64, ..table[slot] },
            )
        } else {
            Vault::update_applied(pre, post, now)
        }
    }

    /// What a claim by `key` at `now` pays: everything the position has
    /// earned up to `now`, and nothing without a position.
    pub open spec fn claim_amount(&self, now: u64, key: Pubkey) -> u64 {
        if self.position_of(key) < self.total_user_count {
            self.table_after_update(now)[self.position_of(key)].earned_amount
        } else {
            0
        }
    }

    /// Why a claim by `key` at `now` is refused, if it is: the accrual is
    /// refused, or the reward pool holds less than the claim pays.
    pub open spec fn claim_rejection(&self, now: u64, key: Pubkey) -> Option<CustomError> {
        if self.update_faults(now) {
            Some(CustomError::ArithmeticFault)
        } else if self.claim_amount(now, key) > self.reward_pool_amount {
            Some(CustomError::ArithmeticFault)
        } else {
            None
        }
    }

    /// Whether `post` is the record `pre` after `key` has claimed at `now`:
    /// the accrual applied, then the earned amount of the position zeroed and
    /// taken from the reward pool.
    pub open spec fn claim_applied(pre: Vault, post: Vault, now: u64, key: Pubkey) -> bool {
        let table = pre.table_after_update(now);
        let slot = pre.position_of(key);
        if slot < pre.total_user_count {
            &&& post == (Vault {
                last_updated_time: now,
                users: post.users,
                reward_pool_amount: (pre.reward_pool_amount - pre.claim_amount(now, key)) as u64,
                ..pre
            })
            &&& post.users@ == table.update(slot, User { earned_amount: 0, ..table[slot] })
        } else {
            Vault::update_applied(pre, post, now)
        }
    }

    /// Stakes `amount` for `key`. A refused stake changes nothing.
    pub fn stake(&mut self, now: u64, key: Pubkey, amount: u64) -> (r: Result<(), CustomError>)
        requires
            old(self).wf(),
        ensures
            final(self).wf(),
            match old(self).stake_rejection(now, key, amount) {
                Some(e) => r == Err::<(), CustomError>(e) && *final(self) == *old(self),
                None => r is Ok && Vault::stake_applied(*old(self), *final(self), now, key, amount),
            },
            r is Ok ==> final(self).total_staked_amount == old(self).total_staked_amount + amount,
    {
        let mut next = *self;
        next.update(now)?;
        let slot = next.find_position(&key);
        let count = next.total_user_count as usize;
        proof {
            lemma_position_same_keys(self.users@, next.users@, count as int, key, 0);
        }
        if slot >= count && count >= MAX_STAKERS {
            return Err(CustomError::MaxStaked);
        }
        let total = match next.total_staked_amount.checked_add(amount) {
            Some(v) => v,
            None => { return Err(CustomError::ArithmeticFault); },
        };
        let ghost table = next.users@;
        if slot < count {
            let position = next.users[slot];
            proof {
                lemma_stake_within_sum(table, count as int, slot as int);
            }
            let entry = User {
                key: position.key,
                staked_amount: position.staked_amount + amount,
                earned_amount: position.earned_amount,
            };
            next.users[slot] = entry;
            proof {
                lemma_staked_sum_update(table, count as int, slot as int, entry);
            }
        } else {
            let entry = User { key, staked_amount: amount, earned_amount: 0 };
            next.users[slot] = entry;
            next.total_user_count = next.total_user_count + 1;
            proof {
                lemma_staked_sum_update(table, count as int, slot as int, entry);
            }
        }
        next.total_staked_amount = total;
        *self = next;
        Ok(())
    }

    /// Takes `amount` out of the stake of `key`, which must hold that much; a
    /// participant without a position holds nothing. A refused unstake
    /// changes nothing.
    pub fn unstake(&mut self, now: u64, key: Pubkey, amount: u64) -> (r: Result<(), CustomError>)
        requires
            old(self).wf(),
        ensures
            final(self).wf(),
            match old(self).unstake_rejection(now, key, amount) {
                Some(e) => r == Err::<(), CustomError>(e) && *final(self) == *old(self),
                None => r is Ok && Vault::unstake_applied(*old(self), *final(self), now, key, amount),
            },
            r is Ok ==> final(self).total_staked_amount == old(self).total_staked_amount - amount,
    {
        let mut next = *self;
        next.update(now)?;
        let slot = next.find_position(&key);
        let count = next.total_user_count as usize;
        proof {
            lemma_position_same_keys(self.users@, next.users@, count as int, key, 0);
        }
        if slot < count {
            let ghost table = next.users@;
            let position = next.users[slot];
            let staked = match position.staked_amount.checked_sub(amount) {
                Some(v) => v,
                None => { return Err(CustomError::ArithmeticFault); },
            };
            proof {
                lemma_stake_within_sum(table, count as int, slot as int);
            }
            let entry = User { key: position.key, staked_amount: staked, earned_amount: position.earned_amount };
            next.users[slot] = entry;
            next.total_staked_amount = next.total_staked_amount - amount;
            proof {
                lemma_staked_sum_update(table, count as int, slot as int, entry);
            }
        } else if amount > 0 {
            return Err(CustomError::ArithmeticFault);
        }
        *self = next;
        Ok(())
    }

    /// Pays out what `key` has earned: returns the amount that the caller has
    /// to move from the reward pool to the participant, which is zero for a
    /// participant without a position. A claim that the reward pool cannot
    /// cover is refused and changes nothing.
    pub fn claim(&mut self, now: u64, key: Pubkey) -> (r: Result<u64, CustomError>)
        requires
            old(self).wf(),
        ensures
            final(self).wf(),
            match old(self).claim_rejection(now, key) {
                Some(e) => r == Err::<u64, CustomError>(e) && *final(self) == *old(self),
                None => {
                    &&& r == Ok::<u64, CustomError>(old(self).claim_amount(now, key))
                    &&& old(self).claim_amount(now, key) <= old(self).reward_pool_amount
                    &&& Vault::claim_applied(*old(self), *final(self), now, key)
                },
            },
    {
        let mut next = *self;
        next.update(now)?;
        let slot = next.find_position(&key);
        let count = next.total_user_count as usize;
        proof {
            lemma_position_same_keys(self.users@, next.users@, count as int, key, 0);
        }
        let mut paid: u64 = 0;
        if slot < count {
            let ghost table = next.users@;
            let position = next.users[slot];
            let pool = match next.reward_pool_amount.checked_sub(position.earned_amount) {
                Some(v) => v,
                None => { return Err(CustomError::ArithmeticFault); },
            };
            let entry = User { key: position.key, staked_amount: position.staked_amount, earned_amount: 0 };
            next.users[slot] = entry;
            next.reward_pool_amount = pool;
            paid = position.earned_amount;
            proof {
                lemma_staked_sum_update(table, count as int, slot as int, entry);
            }
        }
        *self = next;
        Ok(paid)
    }
}

impl Default for Vault {
    fn default() -> (r: Vault)
        ensures
            r == Vault::zero(),
            r.wf(),
    {
        Vault {
            authority: Pubkey::default(),
            stake_token_mint: Pubkey::default(),
            reward_pool_amount: 0,
            total_staked_amount: 0,
            daily_payout_amount: 0,
            last_updated_time: 0,
            users: [User::default(); MAX_STAKERS],
            total_user_count: 0,
            bump: 0,
        }
    }
}

/// An accrual keeps the shape of the record: the aggregate stake stays the
/// sum of the active positions' stakes.
pub proof fn lemma_update_keeps_invariant(pre: Vault, post: Vault, now: u64)
    requires
        pre.wf(),
        Vault::update_applied(pre, post, now),
    ensures
        post.wf(),
{
    lemma_staked_sum_same(pre.users@, post.users@, pre.total_user_count as int);
}

/// A stake keeps the shape of the record: the aggregate stake stays the sum
/// of the active positions' stakes.
pub proof fn lemma_stake_keeps_invariant(pre: Vault, post: Vault, now: u64, key: Pubkey, amount: u64)
    requires
        pre.wf(),
        pre.stake_rejection(now, key, amount) is None,
        Vault::stake_applied(pre, post, now, key, amount),
    ensures
        post.wf(),
{
    let count = pre.total_user_count as int;
    let table = pre.table_after_update(now);
    let slot = pre.position_of(key);
    lemma_position_same_keys(pre.users@, pre.users@, count, key, 0);
    lemma_staked_sum_same(pre.users@, table, count);
    if slot < count {
        let entry = User { staked_amount: (table[slot].staked_amount + amount) as u64, ..table[slot] };
        lemma_stake_within_sum(table, count, slot);
        lemma_staked_sum_update(table, count, slot, entry);
    } else {
        let entry = User { key, staked_amount: amount, earned_amount: 0 };
        lemma_staked_sum_update(table, count, slot, entry);
    }
}

/// An unstake keeps the shape of the record: the aggregate stake stays the
/// sum of the active positions' stakes.
pub proof fn lemma_unstake_keeps_invariant(pre: Vault, post: Vault, now: u64, key: Pubkey, amount: u64)
    requires
        pre.wf(),
        pre.unstake_rejection(now, key, amount) is None,
        Vault::unstake_applied(pre, post, now, key, amount),
    ensures
        post.wf(),
{
    let count = pre.total_user_count as int;
    let table = pre.table_after_update(now);
    let slot = pre.position_of(key);
    lemma_position_same_keys(pre.users@, pre.users@, count, key, 0);
    lemma_staked_sum_same(pre.users@, table, count);
    if slot < count {
        let entry = User { staked_amount: (table[slot].staked_amount - amount) as u64, ..table[slot] };
        lemma_stake_within_sum(table, count, slot);
        lemma_staked_sum_update(table, count, slot, entry);
    }
}

/// A claim keeps the shape of the record, never pays more than the reward
/// pool held before it, and takes from the reward pool exactly what it pays.
pub proof fn lemma_claim_keeps_invariant(pre: Vault, post: Vault, now: u64, key: Pubkey)
    requires
        pre.wf(),
        pre.claim_rejection(now, key) is None,
        Vault::claim_applied(pre, post, now, key),
    ensures
        post.wf(),
        pre.claim_amount(now, key) <= pre.reward_pool_amount,
        post.reward_pool_amount == pre.reward_pool_amount - pre.claim_amount(now, key),
{
    let count = pre.total_user_count as int;
    let table = pre.table_after_update(now);
    let slot = pre.position_of(key);
    lemma_position_same_keys(pre.users@, pre.users@, count, key, 0);
    lemma_staked_sum_same(pre.users@, table, count);
    if slot < count {
        let entry = User { earned_amount: 0, ..table[slot] };
        lemma_staked_sum_update(table, count, slot, entry);
    }
}

/// An accrual with no time elapsed since the last one is never refused and
/// changes no field of the record, so a second accrual at the time of the
/// first changes nothing.
pub proof fn lemma_update_idempotent(pre: Vault, post: Vault)
    requires
        Vault::update_applied(pre, post, pre.last_updated_time),
    ensures
        !pre.update_faults(pre.last_updated_time),
        post == pre,
{
    let now = pre.last_updated_time;
    assert forall|i: int| 0 <= i < pre.total_user_count implies !#[trigger] pre.position_faults(now, i) by {
        lemma_no_share_in_no_time(pre.daily_payout_amount, pre.users[i].staked_amount, pre.total_staked_amount);
    }
    assert forall|i: int| 0 <= i < MAX_STAKERS implies pre.table_after_update(now)[i] == pre.users@[i] by {
        lemma_no_share_in_no_time(pre.daily_payout_amount, pre.users[i].staked_amount, pre.total_staked_amount);
    }
    assert(pre.table_after_update(now) =~= pre.users@);
    assert(post.users =~= pre.users);
}

/// With no time elapsed no position earns anything.
pub proof fn lemma_no_share_in_no_time(daily_payout_amount: u64, staked_amount: u64, total_staked_amount: u64)
    ensures
        daily_payout_amount * 0 * staked_amount == 0,
        pro_rata(daily_payout_amount, 0, staked_amount, total_staked_amount) == 0,
{
    assert(daily_payout_amount * 0 * staked_amount == 0) by (nonlinear_arith);
    if total_staked_amount != 0 {
        assert(0int / (SECONDS_PER_DAY * total_staked_amount) == 0) by (nonlinear_arith)
            requires
                SECONDS_PER_DAY * total_staked_amount > 0,
        ;
    }
}

/// A position's share, paid for every second of the day, never exceeds
/// the position's part of the payout for the elapsed time; so no share exceeds
/// the payout for the elapsed time.
pub proof fn lemma_share_within_payout(daily_payout_amount: u64, elapsed: u64, staked_amount: u64, total_staked_amount: u64)
    requires
        staked_amount <= total_staked_amount,
    ensures
        0 <= pro_rata(daily_payout_amount, elapsed, staked_amount, total_staked_amount),
        pro_rata(daily_payout_amount, elapsed, staked_amount, total_staked_amount) * (SECONDS_PER_DAY
            * total_staked_amount) <= daily_payout_amount * elapsed * staked_amount,
        pro_rata(daily_payout_amount, elapsed, staked_amount, total_staked_amount) * SECONDS_PER_DAY
            <= daily_payout_amount * elapsed,
{
    let d = daily_payout_amount as int;
    let e = elapsed as int;
    let s = staked_amount as int;
    let t = total_staked_amount as int;
    let day = SECONDS_PER_DAY as int;
    assert(0 <= d * e && 0 <= d * e * s) by (nonlinear_arith)
        requires
            d >= 0,
            e >= 0,
            s >= 0,
    ;
    if total_staked_amount != 0 {
        let q = (d * e * s) / (day * t);
        assert(0 <= q && q * (day * t) <= d * e * s) by (nonlinear_arith)
            requires
                q == (d * e * s) / (day * t),
                d * e * s >= 0,
                t > 0,
                day > 0,
        ;
        assert(q * day <= d * e) by (nonlinear_arith)
            requires
                q * (day * t) <= d * e * s,
                0 <= s <= t,
                t > 0,
                d * e >= 0,
                q >= 0,
                day > 0,
        ;
    }
}

/// The shares that the first `n` positions earn together for the time from
/// the last accrual to `now`.
pub open spec fn share_sum(vault: Vault, now: u64, n: int) -> int
    decreases n,
{
    if n <= 0 {
        0
    } else {
        share_sum(vault, now, n - 1) + pro_rata(
            vault.daily_payout_amount,
            (now - vault.last_updated_time) as u64,
            vault.users[n - 1].staked_amount,
            vault.total_staked_amount,
        )
    }
}

/// The shares of all active positions together never exceed the daily payout
/// for the elapsed time: an accrual creates no value.
pub proof fn lemma_accrual_within_payout(vault: Vault, now: u64)
    requires
        vault.wf(),
        vault.last_updated_time <= now,
    ensures
        0 <= share_sum(vault, now, vault.total_user_count as int),
        share_sum(vault, now, vault.total_user_count as int) * SECONDS_PER_DAY <= vault.daily_payout_amount * (now
            - vault.last_updated_time),
{
    let n = vault.total_user_count as int;
    let d = vault.daily_payout_amount as int;
    let e = now - vault.last_updated_time;
    let t = vault.total_staked_amount as int;
    let day = SECONDS_PER_DAY as int;
    let sum = share_sum(vault, now, n);
    lemma_share_sum_scaled(vault, now, n);
    assert(0 <= d * e) by (nonlinear_arith)
        requires
            d >= 0,
            e >= 0,
    ;
    if t != 0 {
        assert(sum * day <= d * e) by (nonlinear_arith)
            requires
                sum * (day * t) <= d * e * t,
                t > 0,
        ;
    }
}

/// The shares of the first `n` positions, paid for every second of the day
/// and every unit staked, stay within the payout for the elapsed time and the
/// stakes of those positions.
pub proof fn lemma_share_sum_scaled(vault: Vault, now: u64, n: int)
    requires
        0 <= n <= vault.total_user_count <= MAX_STAKERS,
        vault.last_updated_time <= now,
        vault.total_staked_amount == staked_sum(vault.users@, vault.total_user_count as int),
    ensures
        0 <= share_sum(vault, now, n),
        vault.total_staked_amount == 0 ==> share_sum(vault, now, n) == 0,
        share_sum(vault, now, n) * (SECONDS_PER_DAY * vault.total_staked_amount) <= vault.daily_payout_amount * (now
            - vault.last_updated_time) * staked_sum(vault.users@, n),
    decreases n,
{
    let d = vault.daily_payout_amount as int;
    let e = now - vault.last_updated_time;
    let t = vault.total_staked_amount as int;
    let day = SECONDS_PER_DAY as int;
    if n > 0 {
        lemma_share_sum_scaled(vault, now, n - 1);
        lemma_stake_within_sum(vault.users@, vault.total_user_count as int, n - 1);
        let s = vault.users[n - 1].staked_amount;
        lemma_share_within_payout(vault.daily_payout_amount, e as u64, s, vault.total_staked_amount);
        let q = pro_rata(vault.daily_payout_amount, e as u64, s, vault.total_staked_amount);
        let before = share_sum(vault, now, n - 1);
        let staked_before = staked_sum(vault.users@, n - 1);
        assert((before + q) * (day * t) <= d * e * (staked_before + s)) by (nonlinear_arith)
            requires
                before * (day * t) <= d * e * staked_before,
                q * (day * t) <= d * e * s,
        ;
    } else {
        assert(d * e * 0 == 0) by (nonlinear_arith);
    }
}

/// Two tables with the same keys in the slots from `start` to `count` give
/// the same position for a key.
pub proof fn lemma_position_same_keys(a: Seq<User>, b: Seq<User>, count: int, key: Pubkey, start: int)
    requires
        0 <= start <= count <= a.len(),
        count <= b.len(),
        forall|i: int| start <= i < count ==> a[i].key == b[i].key,
    ensures
        position_from(a, count, key, start) == position_from(b, count, key, start),
        start <= position_from(a, count, key, start) <= count,
    decreases count - start,
{
    if start < count && a[start].key != key {
        lemma_position_same_keys(a, b, count, key, start + 1);
    }
}

/// Two tables whose first `n` positions stake the same amounts have the same
/// sum of stakes.
pub proof fn lemma_staked_sum_same(a: Seq<User>, b: Seq<User>, n: int)
    requires
        0 <= n <= a.len(),
        n <= b.len(),
        forall|i: int| 0 <= i < n ==> a[i].staked_amount == b[i].staked_amount,
    ensures
        staked_sum(a, n) == staked_sum(b, n),
    decreases n,
{
    if n > 0 {
        lemma_staked_sum_same(a, b, n - 1);
    }
}

/// Writing one slot changes the sum of the first `n` stakes by the difference
/// of the two stakes when the slot is among them, and not at all otherwise.
pub proof fn lemma_staked_sum_update(users: Seq<User>, n: int, i: int, user: User)
    requires
        0 <= n <= users.len(),
        0 <= i < users.len(),
    ensures
        staked_sum(users.update(i, user), n) == if i < n {
            staked_sum(users, n) - users[i].staked_amount + user.staked_amount
        } else {
            staked_sum(users, n)
        },
    decreases n,
{
    if n > 0 {
        lemma_staked_sum_update(users, n - 1, i, user);
    }
}

/// No active position stakes more than the sum of the active stakes.
pub proof fn lemma_stake_within_sum(users: Seq<User>, n: int, i: int)
    requires
        0 <= i < n <= users.len(),
    ensures
        users[i].staked_amount <= staked_sum(users, n),
        staked_sum(users, n) >= 0,
    decreases n,
{
    lemma_staked_sum_nonnegative(users, n - 1);
    if i < n - 1 {
        lemma_stake_within_sum(users, n - 1, i);
    }
}

/// A sum of stakes is never negative.
pub proof fn lemma_staked_sum_nonnegative(users: Seq<User>, n: int)
    ensures
        staked_sum(users, n) >= 0,
    decreases n,
{
    if n > 0 {
        lemma_staked_sum_nonnegative(users, n - 1);
    }
}

} // verus!
