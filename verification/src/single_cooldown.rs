//! A cooldown with a single slot per user, for vaults that keep no queue.
//!
//! All that a user has asked to unstake waits together: every addition
//! restarts the wait for the whole amount, and the whole amount is collected
//! at once when the wait is over.

use vstd::prelude::*;
use crate::errors::StakeError;
use crate::keys::Key;

verus! {

/// The configuration of a vault with a single cooldown slot per user.
#[derive(Debug)]
pub struct StakeState {
    /// How long an amount waits before it can be collected.
    pub cooldown: u64,
    /// The longest cooldown that can be configured.
    pub max_cooldown: u64,
    /// The smallest share supply, other than zero, that users may leave.
    pub min_shares: u64,
    /// The length of the vesting window.
    pub vesting_period: u64,
    /// The reward paid in last.
    pub vesting_amount: u64,
    /// When the reward paid in last began to vest.
    pub last_distribution_time: u64,
    /// The keys that may pay rewards in.
    pub rewarders: Vec<Key>,
    /// The key that configures the vault.
    pub admin: Key,
}

/// The one slot of a user: an amount and the time from which it can be
/// collected.
#[derive(Clone, Copy, Debug, PartialEq, Eq, Structural)]
pub struct UserCooldown {
    /// The time from which the amount can be collected.
    pub cooldown_end: u64,
    /// The amount that waits.
    pub underlying_amount: u64,
}

/// The configuration of a new vault: the cooldown stands at its maximum and
/// everything else is zero or empty.
pub fn initialize(max_cooldown: u64, admin: Key) -> (r: StakeState)
    ensures
        r.cooldown == max_cooldown,
        r.max_cooldown == max_cooldown,
        r.admin == admin,
        r.min_shares == 0,
        r.vesting_period == 0,
        r.vesting_amount == 0,
        r.last_distribution_time == 0,
        r.rewarders@ == Seq::<Key>::empty(),
{
    StakeState {
        cooldown: max_cooldown,
        max_cooldown,
        min_shares: 0,
        vesting_period: 0,
        vesting_amount: 0,
        last_distribution_time: 0,
        rewarders: Vec::new(),
        admin,
    }
}

/// Sets the cooldown.
///
/// Fails with `InvalidCooldown`, changing nothing, where `duration` is above
/// the maximum.
pub fn set_cooldown_duration(stake_state: &mut StakeState, duration: u64) -> (r: Result<
    (),
    StakeError,
>)
    ensures
        duration > old(stake_state).max_cooldown ==> r == Err::<(), StakeError>(
            StakeError::InvalidCooldown,
        ) && *final(stake_state) == *old(stake_state),
        duration <= old(stake_state).max_cooldown ==> r == Ok::<(), StakeError>(()) && *final(stake_state) == (StakeState { cooldown: duration, ..*old(stake_state) }),
{
    if duration > stake_state.max_cooldown {
        return Err(StakeError::InvalidCooldown);
    }
    stake_state.cooldown = duration;
    Ok(())
}

/// Adds `assets` to the amount that waits and restarts the wait for all of
/// it at `now`.
///
/// Fails with `Overflow`, changing nothing, where the end of the wait or
/// the new amount does not fit 64 bits.
pub fn cooldown_assets(
    stake_state: &StakeState,
    user_cooldown: &mut UserCooldown,
    now: u64,
    assets: u64,
) -> (r: Result<(), StakeError>)
    ensures
        r == if now + stake_state.cooldown > u64::MAX || old(user_cooldown).underlying_amount
            + assets > u64::MAX {
            Err::<(), StakeError>(StakeError::Overflow)
        } else {
            Ok::<(), StakeError>(())
        },
        r is Ok ==> final(user_cooldown).cooldown_end == now + stake_state.cooldown && final(user_cooldown).underlying_amount == old(user_cooldown).underlying_amount + assets,
        r is Err ==> *final(user_cooldown) == *old(user_cooldown),
{
    let end: u64 = match now.checked_add(stake_state.cooldown) {
        None => {
            return Err(StakeError::Overflow);
        },
        Some(end) => end,
    };
    let amount: u64 = match user_cooldown.underlying_amount.checked_add(assets) {
        None => {
            return Err(StakeError::Overflow);
        },
        Some(amount) => amount,
    };
    user_cooldown.cooldown_end = end;
    user_cooldown.underlying_amount = amount;
    Ok(())
}

/// Collects all that waits, once the wait is over, and returns the amount
/// to pay out. The slot is empty afterwards.
///
/// Fails with `InvalidCooldown`, changing nothing, where `now` lies before
/// the end of the wait.
pub fn unstake(user_cooldown: &mut UserCooldown, now: u64) -> (r: Result<u64, StakeError>)
    ensures
        now < old(user_cooldown).cooldown_end ==> r == Err::<u64, StakeError>(
            StakeError::InvalidCooldown,
        ) && *final(user_cooldown) == *old(user_cooldown),
        now >= old(user_cooldown).cooldown_end ==> r == Ok::<u64, StakeError>(
            old(user_cooldown).underlying_amount,
        ) && *final(user_cooldown) == (UserCooldown { cooldown_end: 0, underlying_amount: 0 }),
{
    if now < user_cooldown.cooldown_end {
        return Err(StakeError::InvalidCooldown);
    }
    let assets: u64 = user_cooldown.underlying_amount;
    user_cooldown.cooldown_end = 0;
    user_cooldown.underlying_amount = 0;
    Ok(assets)
}

} // verus!
