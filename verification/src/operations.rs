//! The operations of the vault, each from the states it touches and its
//! arguments to a result and the states after it.
//!
//! Who the caller is has been settled before an operation is called: it
//! arrives as a flag. Every operation checks all it has to check before it
//! writes, so one that fails has changed nothing.

use vstd::prelude::*;
use crate::cooldown::UserPDA;
use crate::cooldown::refreshed;
use crate::cooldown::settled;
use crate::errors::StakeError;
use crate::math::MAX_OFFSET;
use crate::math::assets_for_shares;
use crate::math::assets_for_shares_spec;
use crate::state::DEFAULT_VESTING_PERIOD;
use crate::state::VaultState;
use crate::vesting::lemma_unvested_bounded;

verus! {

/// What `stake` returns.
pub open spec fn stake_spec(
    vault: VaultState,
    blacklisted: bool,
    total_supply: u64,
    now: u32,
    amt: u64,
) -> Result<u64, StakeError> {
    if blacklisted {
        Err(StakeError::Blacklisted)
    } else {
        match vault.convert_to_shares_spec(amt, total_supply, now) {
            Err(e) => Err(e),
            Ok(shares) => if shares == 0 {
                Err(StakeError::ZeroShares)
            } else if vault.total_assets + amt > u64::MAX {
                Err(StakeError::Overflow)
            } else {
                Ok(shares)
            },
        }
    }
}

/// What `start_unstake` returns.
pub open spec fn start_unstake_spec(
    vault: VaultState,
    blacklisted: bool,
    total_supply: u64,
    now: u32,
    shares: u64,
) -> Result<u64, StakeError> {
    if blacklisted {
        Err(StakeError::Blacklisted)
    } else if now + vault.cooldown > u32::MAX {
        Err(StakeError::Overflow)
    } else {
        match vault.effective_assets_spec(now) {
            Err(e) => Err(e),
            Ok(effective) => match assets_for_shares_spec(
                shares,
                total_supply,
                effective,
                vault.offset,
            ) {
                Err(e) => Err(e),
                Ok(assets) => if assets == 0 && shares != 0 {
                    Err(StakeError::ZeroAssets)
                } else if assets > effective {
                    Err(StakeError::Underflow)
                } else {
                    Ok(assets)
                },
            },
        }
    }
}

/// What `reward` returns.
pub open spec fn reward_spec(vault: VaultState, is_rewarder: bool, now: u32, amt: u64) -> Result<
    (),
    StakeError,
> {
    if !is_rewarder {
        Err(StakeError::NotRewarder)
    } else if now < vault.last_distribution_time {
        Err(StakeError::Underflow)
    } else if vault.vesting_amount > 0 && now - vault.last_distribution_time
        < vault.vesting_period {
        Err(StakeError::RewardVestingOngoing)
    } else if vault.total_assets + amt > u64::MAX {
        Err(StakeError::Overflow)
    } else {
        Ok(())
    }
}

/// What `unstake` returns, from the available balance and the queue it finds.
pub open spec fn unstake_spec(
    available: nat,
    queue: Seq<(u32, u64)>,
    blacklisted: bool,
    now: u32,
    assets: u64,
) -> Result<u64, StakeError> {
    if blacklisted {
        Err(StakeError::Blacklisted)
    } else if settled(available, queue, now).0 > u64::MAX {
        Err(StakeError::Overflow)
    } else if assets > settled(available, queue, now).0 {
        Err(StakeError::AssetsUnavailable)
    } else {
        Ok(assets)
    }
}

/// One of the three operations that move assets into or out of the books of
/// the vault, with its arguments.
pub enum Operation {
    /// A deposit of `amt` assets.
    Stake { blacklisted: bool, total_supply: u64, now: u32, amt: u64 },
    /// The burning of `shares` shares.
    StartUnstake { blacklisted: bool, total_supply: u64, now: u32, shares: u64 },
    /// A reward of `amt` assets.
    Reward { is_rewarder: bool, now: u32, amt: u64 },
}

/// What `op` adds to the assets of `vault`: the deposit or the reward where
/// it succeeds, the assets paid out, negative, where an unstake succeeds,
/// and nothing where it fails.
pub open spec fn assets_moved(vault: VaultState, op: Operation) -> int {
    match op {
        Operation::Stake { blacklisted, total_supply, now, amt } => {
            if stake_spec(vault, blacklisted, total_supply, now, amt) is Ok {
                amt as int
            } else {
                0
            }
        },
        Operation::StartUnstake { blacklisted, total_supply, now, shares } => {
            match start_unstake_spec(vault, blacklisted, total_supply, now, shares) {
                Ok(assets) => -(assets as int),
                Err(_) => 0,
            }
        },
        Operation::Reward { is_rewarder, now, amt } => {
            if reward_spec(vault, is_rewarder, now, amt) is Ok {
                amt as int
            } else {
                0
            }
        },
    }
}

/// The books of `vault` after `op`.
pub open spec fn state_after(vault: VaultState, op: Operation) -> VaultState {
    match op {
        Operation::Reward { is_rewarder, now, amt } => {
            if reward_spec(vault, is_rewarder, now, amt) is Ok {
                VaultState {
                    total_assets: (vault.total_assets + amt) as u64,
                    last_distribution_time: now,
                    vesting_amount: amt,
                    ..vault
                }
            } else {
                vault
            }
        },
        _ => VaultState { total_assets: (vault.total_assets + assets_moved(vault, op)) as u64, ..vault },
    }
}

/// The books of `vault` after the operations `ops`, in their order.
pub open spec fn state_after_all(vault: VaultState, ops: Seq<Operation>) -> VaultState
    decreases ops.len(),
{
    if ops.len() == 0 {
        vault
    } else {
        state_after(state_after_all(vault, ops.drop_last()), ops.last())
    }
}

/// The sum of what each of `ops` adds to the assets of `vault`, each taken
/// on the books that the operations before it have left.
pub open spec fn assets_moved_all(vault: VaultState, ops: Seq<Operation>) -> int
    decreases ops.len(),
{
    if ops.len() == 0 {
        0
    } else {
        assets_moved_all(vault, ops.drop_last()) + assets_moved(
            state_after_all(vault, ops.drop_last()),
            ops.last(),
        )
    }
}

/// An operation changes the assets of the vault by exactly what it moves.
pub proof fn lemma_one_operation_conserves(vault: VaultState, op: Operation)
    ensures
        state_after(vault, op).total_assets == vault.total_assets + assets_moved(vault, op),
{
}

/// Assets are conserved: after any sequence of stakes, unstakes and rewards
/// the vault holds what it held before, plus every deposit and every reward
/// that was accepted, less every amount that an unstake paid out.
pub proof fn lemma_conservation(vault: VaultState, ops: Seq<Operation>)
    ensures
        state_after_all(vault, ops).total_assets == vault.total_assets + assets_moved_all(
            vault,
            ops,
        ),
    decreases ops.len(),
{
    if ops.len() > 0 {
        lemma_conservation(vault, ops.drop_last());
        lemma_one_operation_conserves(state_after_all(vault, ops.drop_last()), ops.last());
    }
}

/// The books of a new vault: nothing held, nothing vesting, the default
/// vesting period.
///
/// Fails with `InvalidCooldown` where `cooldown` is above `max_cooldown`,
/// else with `InvalidOffset` where `offset` is above eight.
pub fn initialize_vault_state(cooldown: u32, max_cooldown: u32, min_shares: u64, offset: u8) -> (r:
    Result<VaultState, StakeError>)
    ensures
        r == if cooldown > max_cooldown {
            Err::<VaultState, StakeError>(StakeError::InvalidCooldown)
        } else if offset > MAX_OFFSET {
            Err::<VaultState, StakeError>(StakeError::InvalidOffset)
        } else {
            Ok::<VaultState, StakeError>(
                VaultState {
                    vesting_amount: 0,
                    total_assets: 0,
                    min_shares,
                    last_distribution_time: 0,
                    cooldown,
                    max_cooldown,
                    vesting_period: DEFAULT_VESTING_PERIOD,
                    offset,
                },
            )
        },
        r matches Ok(vault) ==> vault.wf(),
{
    if cooldown > max_cooldown {
        Err(StakeError::InvalidCooldown)
    } else if offset > MAX_OFFSET {
        Err(StakeError::InvalidOffset)
    } else {
        Ok(
            VaultState {
                vesting_amount: 0,
                total_assets: 0,
                min_shares,
                last_distribution_time: 0,
                cooldown,
                max_cooldown,
                vesting_period: DEFAULT_VESTING_PERIOD,
                offset,
            },
        )
    }
}

/// Sets the cooldown of unstakes that start from now on.
///
/// Fails with `NotAdmin` where the caller is not the administrator, else
/// with `InvalidCooldown` where `duration` is above the maximum.
pub fn set_cooldown(vault: &mut VaultState, is_admin: bool, duration: u32) -> (r: Result<
    (),
    StakeError,
>)
    requires
        old(vault).wf(),
    ensures
        r == if !is_admin {
            Err::<(), StakeError>(StakeError::NotAdmin)
        } else if duration > old(vault).max_cooldown {
            Err::<(), StakeError>(StakeError::InvalidCooldown)
        } else {
            Ok::<(), StakeError>(())
        },
        r is Ok ==> *final(vault) == (VaultState { cooldown: duration, ..*old(vault) }),
        r is Err ==> *final(vault) == *old(vault),
        final(vault).wf(),
{
    if !is_admin {
        return Err(StakeError::NotAdmin);
    }
    if duration > vault.max_cooldown {
        return Err(StakeError::InvalidCooldown);
    }
    vault.cooldown = duration;
    Ok(())
}

/// Sets the length of the vesting window.
///
/// Fails with `NotAdmin` where the caller is not the administrator, else
/// with `InvalidVestingPeriod` where `duration` is zero.
pub fn set_vesting_period(vault: &mut VaultState, is_admin: bool, duration: u32) -> (r: Result<
    (),
    StakeError,
>)
    requires
        old(vault).wf(),
    ensures
        r == if !is_admin {
            Err::<(), StakeError>(StakeError::NotAdmin)
        } else if duration == 0 {
            Err::<(), StakeError>(StakeError::InvalidVestingPeriod)
        } else {
            Ok::<(), StakeError>(())
        },
        r is Ok ==> *final(vault) == (VaultState { vesting_period: duration, ..*old(vault) }),
        r is Err ==> *final(vault) == *old(vault),
        final(vault).wf(),
{
    if !is_admin {
        return Err(StakeError::NotAdmin);
    }
    if duration == 0 {
        return Err(StakeError::InvalidVestingPeriod);
    }
    vault.vesting_period = duration;
    Ok(())
}

/// Takes a deposit of `amt` assets and returns the shares to mint for it.
///
/// The shares are priced on the assets vested at `now`. A blacklisted
/// caller is refused before anything else is looked at.
pub fn stake(vault: &mut VaultState, blacklisted: bool, total_supply: u64, now: u32, amt: u64) -> (r:
    Result<u64, StakeError>)
    requires
        old(vault).wf(),
    ensures
        r == stake_spec(*old(vault), blacklisted, total_supply, now, amt),
        *final(vault) == state_after(
            *old(vault),
            Operation::Stake { blacklisted, total_supply, now, amt },
        ),
        r is Ok ==> final(vault).total_assets == old(vault).total_assets + amt,
        r is Err ==> *final(vault) == *old(vault),
        blacklisted ==> r == Err::<u64, StakeError>(StakeError::Blacklisted),
        final(vault).wf(),
        r is Ok ==> final(vault).solvent(now),
{
    if blacklisted {
        return Err(StakeError::Blacklisted);
    }
    let shares: u64 = match vault.convert_to_shares(amt, total_supply, now) {
        Err(e) => {
            return Err(e);
        },
        Ok(shares) => shares,
    };
    if shares == 0 {
        return Err(StakeError::ZeroShares);
    }
    let total: u64 = match vault.total_assets.checked_add(amt) {
        None => {
            return Err(StakeError::Overflow);
        },
        Some(total) => total,
    };
    vault.total_assets = total;
    Ok(shares)
}

/// Burns `shares` shares: takes the assets they redeem at `now` out of the
/// books at once and queues them for the user, to mature after the cooldown.
/// Returns the assets.
///
/// Fails with `ZeroAssets` where shares would be burnt for nothing, and
/// with `Underflow` where they would redeem more than is vested in the
/// vault. A blacklisted caller is refused before anything else is looked at.
pub fn start_unstake(
    vault: &mut VaultState,
    user_data: &mut UserPDA,
    blacklisted: bool,
    total_supply: u64,
    now: u32,
    shares: u64,
) -> (r: Result<u64, StakeError>)
    requires
        old(vault).wf(),
    ensures
        r == start_unstake_spec(*old(vault), blacklisted, total_supply, now, shares),
        *final(vault) == state_after(
            *old(vault),
            Operation::StartUnstake { blacklisted, total_supply, now, shares },
        ),
        r matches Ok(assets) ==> final(vault).total_assets == old(vault).total_assets - assets
            && final(user_data).assets_available == old(user_data).assets_available && final(user_data).unstake_queue@ == old(user_data).unstake_queue@.push(
            ((now + old(vault).cooldown) as u32, assets),
        ),
        r is Err ==> *final(vault) == *old(vault) && *final(user_data) == *old(user_data),
        blacklisted ==> r == Err::<u64, StakeError>(StakeError::Blacklisted),
        final(vault).wf(),
        r is Ok ==> final(vault).solvent(now),
{
    if blacklisted {
        return Err(StakeError::Blacklisted);
    }
    let cooldown_end: u32 = match now.checked_add(vault.cooldown) {
        None => {
            return Err(StakeError::Overflow);
        },
        Some(end) => end,
    };
    let effective: u64 = match vault.effective_assets(now) {
        Err(e) => {
            return Err(e);
        },
        Ok(effective) => effective,
    };
    let assets: u64 = match assets_for_shares(shares, total_supply, effective, vault.offset) {
        Err(e) => {
            return Err(e);
        },
        Ok(assets) => assets,
    };
    if assets == 0 && shares != 0 {
        return Err(StakeError::ZeroAssets);
    }
    if assets > effective {
        return Err(StakeError::Underflow);
    }
    vault.total_assets = vault.total_assets - assets;
    user_data.enqueue(cooldown_end, assets);
    Ok(assets)
}

/// Collects `assets` of what has matured for the user at `now` and returns
/// the amount to pay out.
///
/// The queue is settled first. Fails with `AssetsUnavailable` where less
/// than `assets` is then available; a failure leaves the queue unsettled.
/// A blacklisted caller is refused before anything else is looked at.
pub fn unstake(user_data: &mut UserPDA, blacklisted: bool, now: u32, assets: u64) -> (r: Result<
    u64,
    StakeError,
>)
    ensures
        r == unstake_spec(
            old(user_data).assets_available as nat,
            old(user_data).unstake_queue@,
            blacklisted,
            now,
            assets,
        ),
        r is Ok ==> final(user_data).assets_available == settled(
            old(user_data).assets_available as nat,
            old(user_data).unstake_queue@,
            now,
        ).0 - assets && final(user_data).unstake_queue@ == settled(
            old(user_data).assets_available as nat,
            old(user_data).unstake_queue@,
            now,
        ).1,
        r is Err ==> *final(user_data) == *old(user_data),
        blacklisted ==> r == Err::<u64, StakeError>(StakeError::Blacklisted),
{
    if blacklisted {
        return Err(StakeError::Blacklisted);
    }
    let (k, total) = user_data.matured(now);
    if total > u64::MAX as u128 {
        return Err(StakeError::Overflow);
    }
    if assets as u128 > total {
        return Err(StakeError::AssetsUnavailable);
    }
    user_data.release(k, (total - assets as u128) as u64);
    Ok(assets)
}

/// Takes a reward of `amt` assets into the vault and starts to vest it at
/// `now`.
///
/// Fails with `NotRewarder` where the caller is no approved reward source,
/// with `Underflow` where `now` lies before the last distribution, and with
/// `RewardVestingOngoing` where a reward was paid in before and its window
/// has not run out, so that no new reward ever replaces one that is still
/// vesting.
pub fn reward(vault: &mut VaultState, is_rewarder: bool, now: u32, amt: u64) -> (r: Result<
    (),
    StakeError,
>)
    requires
        old(vault).wf(),
    ensures
        r == reward_spec(*old(vault), is_rewarder, now, amt),
        *final(vault) == state_after(*old(vault), Operation::Reward { is_rewarder, now, amt }),
        r is Ok ==> final(vault).total_assets == old(vault).total_assets + amt && final(vault).vesting_amount == amt && final(vault).last_distribution_time == now,
        r is Err ==> *final(vault) == *old(vault),
        final(vault).wf(),
        r is Ok ==> final(vault).solvent(now),
{
    if !is_rewarder {
        return Err(StakeError::NotRewarder);
    }
    if now < vault.last_distribution_time {
        return Err(StakeError::Underflow);
    }
    if vault.vesting_amount > 0 && now - vault.last_distribution_time < vault.vesting_period {
        return Err(StakeError::RewardVestingOngoing);
    }
    let total: u64 = match vault.total_assets.checked_add(amt) {
        None => {
            return Err(StakeError::Overflow);
        },
        Some(total) => total,
    };
    proof {
        lemma_unvested_bounded(now as int, now as int, vault.vesting_period as int, amt as int);
    }
    vault.total_assets = total;
    vault.inject_reward(now, amt);
    Ok(())
}

/// Settles the queue of the user at `now` and returns what is then
/// available.
pub fn check_available_assets(user_data: &mut UserPDA, now: u32) -> (r: Result<u64, StakeError>)
    ensures
        ({
            let after = settled(
                old(user_data).assets_available as nat,
                old(user_data).unstake_queue@,
                now,
            );
            if after.0 > u64::MAX {
                r == Err::<u64, StakeError>(StakeError::Overflow) && *final(user_data) == *old(user_data)
            } else {
                r == Ok::<u64, StakeError>(after.0 as u64) && final(user_data).assets_available
                    == after.0 && final(user_data).unstake_queue@ == after.1
            }
        }),
{
    user_data.get_available_assets(now)
}

/// Lets the pending unstakes of the user profit from the cooldown that the
/// vault has now: none of them matures later than `now` plus that cooldown.
pub fn refresh_cooldowns(vault: &VaultState, user_data: &mut UserPDA, now: u32) -> (r: Result<
    (),
    StakeError,
>)
    ensures
        now + vault.cooldown > u32::MAX ==> r == Err::<(), StakeError>(StakeError::Overflow)
            && *final(user_data) == *old(user_data),
        now + vault.cooldown <= u32::MAX ==> r == Ok::<(), StakeError>(()) && final(user_data).assets_available == old(user_data).assets_available && final(user_data).unstake_queue@
            == refreshed(old(user_data).unstake_queue@, (now + vault.cooldown) as u32),
{
    user_data.refresh_cooldowns(now, vault.cooldown)
}

} // verus!
