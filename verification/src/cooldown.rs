//! The queue of pending unstakes of one user.
//!
//! Each entry is a pair of the time at which it matures and its amount.
//! Entries are appended at the back and leave at the front only: an entry
//! that has not matured holds back all that stand behind it.

use std::collections::VecDeque;
use vstd::prelude::*;
use crate::errors::StakeError;

verus! {

/// The number of entries at the front of `queue` that have matured at `now`,
/// counted up to the first one that has not.
pub open spec fn matured_count(queue: Seq<(u32, u64)>, now: u32) -> nat
    decreases queue.len(),
{
    if queue.len() == 0 || queue[0].0 > now {
        0
    } else {
        1 + matured_count(queue.skip(1), now)
    }
}

/// The sum of the amounts of `queue`.
pub open spec fn total_amount(queue: Seq<(u32, u64)>) -> nat
    decreases queue.len(),
{
    if queue.len() == 0 {
        0
    } else {
        total_amount(queue.drop_last()) + queue.last().1 as nat
    }
}

/// The available balance and the queue after all that has matured at `now`
/// has moved from the front of the queue into the balance.
pub open spec fn settled(available: nat, queue: Seq<(u32, u64)>, now: u32) -> (nat, Seq<(u32, u64)>) {
    let k = matured_count(queue, now) as int;
    (available + total_amount(queue.take(k)), queue.skip(k))
}

/// `queue` with every maturity time later than `end` brought forward to
/// `end`; amounts and order stay.
pub open spec fn refreshed(queue: Seq<(u32, u64)>, end: u32) -> Seq<(u32, u64)> {
    Seq::new(
        queue.len(),
        |i: int|
            (
                if end < queue[i].0 {
                    end
                } else {
                    queue[i].0
                },
                queue[i].1,
            ),
    )
}

/// `matured_count` is the one length `k` such that the first `k` entries
/// have matured and the entry after them, if there is one, has not.
pub proof fn lemma_matured_count_is(queue: Seq<(u32, u64)>, now: u32, k: nat)
    requires
        k <= queue.len(),
        forall|i: int| 0 <= i < k ==> (#[trigger] queue[i]).0 <= now,
        k < queue.len() ==> queue[k as int].0 > now,
    ensures
        matured_count(queue, now) == k,
    decreases queue.len(),
{
    if k > 0 {
        assert(queue[0].0 <= now);
        let rest = queue.skip(1);
        assert forall|i: int| 0 <= i < k - 1 implies (#[trigger] rest[i]).0 <= now by {
            assert(rest[i] == queue[i + 1]);
        }
        lemma_matured_count_is(rest, now, (k - 1) as nat);
    }
}

/// The matured front is no longer than the queue, all of it has matured and
/// what follows it has not.
pub proof fn lemma_matured_count_bounds(queue: Seq<(u32, u64)>, now: u32)
    ensures
        matured_count(queue, now) <= queue.len(),
        forall|i: int| 0 <= i < matured_count(queue, now) ==> (#[trigger] queue[i]).0 <= now,
        matured_count(queue, now) < queue.len() ==> queue[matured_count(queue, now) as int].0
            > now,
    decreases queue.len(),
{
    if !(queue.len() == 0 || queue[0].0 > now) {
        let rest = queue.skip(1);
        lemma_matured_count_bounds(rest, now);
        let k = matured_count(queue, now);
        assert forall|i: int| 0 <= i < k implies (#[trigger] queue[i]).0 <= now by {
            if i > 0 {
                assert(rest[i - 1] == queue[i]);
            }
        }
        if k < queue.len() {
            assert(rest[k as int - 1] == queue[k as int]);
        }
    }
}

/// The amounts of the front of a queue and of what follows it add up to the
/// amounts of the whole.
pub proof fn lemma_total_amount_splits(queue: Seq<(u32, u64)>, k: int)
    requires
        0 <= k <= queue.len(),
    ensures
        total_amount(queue.take(k)) + total_amount(queue.skip(k)) == total_amount(queue),
    decreases queue.len(),
{
    if k == queue.len() {
        assert(queue.take(k) =~= queue);
        assert(queue.skip(k) =~= Seq::<(u32, u64)>::empty());
    } else {
        let shorter = queue.drop_last();
        lemma_total_amount_splits(shorter, k);
        assert(shorter.take(k) =~= queue.take(k));
        assert(queue.skip(k).drop_last() =~= shorter.skip(k));
        assert(queue.skip(k).last() == queue.last());
    }
}

/// Settling loses nothing: what is available and what is pending add up to
/// the same before and after.
pub proof fn lemma_settle_conserves(available: nat, queue: Seq<(u32, u64)>, now: u32)
    ensures
        settled(available, queue, now).0 + total_amount(settled(available, queue, now).1)
            == available + total_amount(queue),
{
    lemma_matured_count_bounds(queue, now);
    lemma_total_amount_splits(queue, matured_count(queue, now) as int);
}

/// Bringing maturity times forward changes no amount.
pub proof fn lemma_refresh_conserves(queue: Seq<(u32, u64)>, end: u32)
    ensures
        total_amount(refreshed(queue, end)) == total_amount(queue),
    decreases queue.len(),
{
    if queue.len() > 0 {
        lemma_refresh_conserves(queue.drop_last(), end);
        assert(refreshed(queue, end).drop_last() =~= refreshed(queue.drop_last(), end));
    }
}

/// Settling twice at the same time, with nothing enqueued in between, is
/// settling once: the second pass finds nothing matured at the front and
/// leaves balance and queue as the first left them.
pub proof fn lemma_settle_idempotent(available: nat, queue: Seq<(u32, u64)>, now: u32)
    ensures
        settled(settled(available, queue, now).0, settled(available, queue, now).1, now)
            == settled(available, queue, now),
{
    let k = matured_count(queue, now);
    lemma_matured_count_bounds(queue, now);
    let rest = queue.skip(k as int);
    if rest.len() > 0 {
        assert(rest[0] == queue[k as int]);
    }
    assert(matured_count(rest, now) == 0);
    assert(rest.take(0) =~= Seq::<(u32, u64)>::empty());
    assert(rest.skip(0) =~= rest);
}

/// What one user has withdrawn from staking and not yet collected.
pub struct UserPDA {
    /// Assets that have matured and can be collected.
    pub assets_available: u64,
    /// Pending unstakes, oldest first, each with the time at which it matures.
    pub unstake_queue: VecDeque<(u32, u64)>,
}

impl UserPDA {
    /// A state with nothing available and nothing pending.
    pub fn new() -> (r: Self)
        ensures
            r.assets_available == 0,
            r.unstake_queue@ == Seq::<(u32, u64)>::empty(),
    {
        UserPDA { assets_available: 0, unstake_queue: VecDeque::with_capacity(100) }
    }

    /// Appends a pending unstake of `amount` that matures at `maturity_time`.
    pub fn enqueue(&mut self, maturity_time: u32, amount: u64)
        ensures
            final(self).unstake_queue@ == old(self).unstake_queue@.push((maturity_time, amount)),
            final(self).assets_available == old(self).assets_available,
    {
        self.unstake_queue.push_back((maturity_time, amount));
    }

    /// Counts the matured front of the queue and adds it up on top of the
    /// available balance, without changing anything.
    pub(crate) fn matured(&self, now: u32) -> (r: (usize, u128))
        ensures
            r.0 <= self.unstake_queue@.len(),
            r.0 == matured_count(self.unstake_queue@, now),
            r.1 == settled(self.assets_available as nat, self.unstake_queue@, now).0,
    {
        let n: usize = self.unstake_queue.len();
        let mut k: usize = 0;
        let mut total: u128 = self.assets_available as u128;
        while k < n
            invariant
                n == self.unstake_queue@.len(),
                k <= n,
                forall|i: int| 0 <= i < k ==> (#[trigger] self.unstake_queue@[i]).0 <= now,
                total == self.assets_available + total_amount(self.unstake_queue@.take(k as int)),
                total <= 0xffff_ffff_ffff_ffff + k * 0xffff_ffff_ffff_ffff,
            ensures
                k < n ==> self.unstake_queue@[k as int].0 > now,
            decreases n - k,
        {
            let entry: (u32, u64) = self.unstake_queue[k];
            if entry.0 > now {
                break ;
            }
            proof {
                let next = self.unstake_queue@.take(k as int + 1);
                assert(next.drop_last() =~= self.unstake_queue@.take(k as int));
                assert(next.last() == self.unstake_queue@[k as int]);
            }
            total = total + entry.1 as u128;
            k = k + 1;
        }
        proof {
            lemma_matured_count_is(self.unstake_queue@, now, k as nat);
        }
        (k, total)
    }

    /// Removes the first `k` entries and sets the available balance.
    pub(crate) fn release(&mut self, k: usize, available: u64)
        requires
            k <= old(self).unstake_queue@.len(),
        ensures
            final(self).unstake_queue@ == old(self).unstake_queue@.skip(k as int),
            final(self).assets_available == available,
    {
        let ghost before = self.unstake_queue@;
        let mut i: usize = 0;
        while i < k
            invariant
                i <= k <= before.len(),
                self.unstake_queue@ == before.skip(i as int),
            decreases k - i,
        {
            let _ = self.unstake_queue.pop_front();
            proof {
                assert(before.skip(i as int).subrange(1, before.len() - i) =~= before.skip(
                    i as int + 1,
                ));
            }
            i = i + 1;
        }
        self.assets_available = available;
    }

    /// Moves every matured entry at the front of the queue into the
    /// available balance and returns that balance.
    ///
    /// The pass stops at the first entry that has not matured, whatever
    /// stands behind it. Fails with `Overflow`, changing nothing, where the
    /// new balance does not fit 64 bits.
    pub fn get_available_assets(&mut self, now: u32) -> (r: Result<u64, StakeError>)
        ensures
            ({
                let after = settled(
                    old(self).assets_available as nat,
                    old(self).unstake_queue@,
                    now,
                );
                if after.0 > u64::MAX {
                    r == Err::<u64, StakeError>(StakeError::Overflow) && *final(self) == *old(self)
                } else {
                    r == Ok::<u64, StakeError>(after.0 as u64) && final(self).assets_available
                        == after.0 && final(self).unstake_queue@ == after.1
                }
            }),
    {
        let (k, total) = self.matured(now);
        if total > u64::MAX as u128 {
            return Err(StakeError::Overflow);
        }
        self.release(k, total as u64);
        Ok(total as u64)
    }

    /// Takes `amount` out of the available balance and returns it.
    ///
    /// Only what an earlier pass of `get_available_assets` has moved into the
    /// balance counts. Fails with `AssetsUnavailable`, changing nothing, where
    /// `amount` is more than the balance.
    pub fn withdraw(&mut self, amount: u64) -> (r: Result<u64, StakeError>)
        ensures
            amount > old(self).assets_available ==> r == Err::<u64, StakeError>(
                StakeError::AssetsUnavailable,
            ) && *final(self) == *old(self),
            amount <= old(self).assets_available ==> r == Ok::<u64, StakeError>(amount) && final(self).assets_available == old(self).assets_available - amount && final(self).unstake_queue
                == old(self).unstake_queue,
    {
        if amount > self.assets_available {
            return Err(StakeError::AssetsUnavailable);
        }
        self.assets_available = self.assets_available - amount;
        Ok(amount)
    }

    /// Brings every pending maturity time that lies after `now + new_cooldown`
    /// forward to that time. No entry is delayed, and amounts and order stay.
    ///
    /// Fails with `Overflow`, changing nothing, where `now + new_cooldown`
    /// does not fit 32 bits.
    pub fn refresh_cooldowns(&mut self, now: u32, new_cooldown: u32) -> (r: Result<(), StakeError>)
        ensures
            now + new_cooldown > u32::MAX ==> r == Err::<(), StakeError>(StakeError::Overflow)
                && *final(self) == *old(self),
            now + new_cooldown <= u32::MAX ==> r == Ok::<(), StakeError>(()) && final(self).assets_available == old(self).assets_available && final(self).unstake_queue@
                == refreshed(old(self).unstake_queue@, (now + new_cooldown) as u32),
    {
        let end: u32 = match now.checked_add(new_cooldown) {
            None => {
                return Err(StakeError::Overflow);
            },
            Some(end) => end,
        };
        let ghost before = self.unstake_queue@;
        let n: usize = self.unstake_queue.len();
        let mut i: usize = 0;
        while i < n
            invariant
                n == before.len(),
                i <= n,
                self.assets_available == old(self).assets_available,
                self.unstake_queue@ == before.skip(i as int) + refreshed(before, end).take(
                    i as int,
                ),
            decreases n - i,
        {
            let front = self.unstake_queue.pop_front();
            let ghost rest = self.unstake_queue@;
            match front {
                Some(entry) => {
                    let maturity: u32 = if end < entry.0 {
                        end
                    } else {
                        entry.0
                    };
                    self.unstake_queue.push_back((maturity, entry.1));
                    proof {
                        assert(entry == before[i as int]);
                        assert(self.unstake_queue@ =~= before.skip(i as int + 1) + refreshed(
                            before,
                            end,
                        ).take(i as int + 1));
                    }
                },
                None => {
                    proof {
                        assert(false);
                    }
                },
            }
            i = i + 1;
        }
        proof {
            assert(self.unstake_queue@ =~= refreshed(before, end));
        }
        Ok(())
    }
}

} // verus!
