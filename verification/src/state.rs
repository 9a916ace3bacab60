//! The books of one vault: what it holds, what of it is still vesting, and
//! how it is configured.

use vstd::prelude::*;
use crate::errors::StakeError;
use crate::math::MAX_OFFSET;
use crate::math::assets_for_shares;
use crate::math::assets_for_shares_spec;
use crate::math::shares_for_assets;
use crate::math::shares_for_assets_spec;
use crate::vesting::lemma_unvested_bounded;
use crate::vesting::lemma_unvested_monotonic;
use crate::vesting::unvested;
use crate::vesting::unvested_amount;
use crate::vesting::unvested_spec;

verus! {

/// The vesting period of a new vault, in seconds: eight hours.
pub const DEFAULT_VESTING_PERIOD: u32 = 28_800;

/// The aggregate state of a vault.
#[derive(Clone, Copy, Debug, PartialEq, Eq, Structural)]
pub struct VaultState {
    /// The reward paid in last, which vests over `vesting_period`.
    pub vesting_amount: u64,
    /// All assets the vault owns, the part still vesting included.
    pub total_assets: u64,
    /// The smallest share supply, other than zero, that users may leave.
    pub min_shares: u64,
    /// When the reward paid in last began to vest.
    pub last_distribution_time: u32,
    /// How long an unstake waits before it can be collected.
    pub cooldown: u32,
    /// The longest cooldown that can be configured.
    pub max_cooldown: u32,
    /// The length of the vesting window; never zero.
    pub vesting_period: u32,
    /// The decimal padding of the virtual share supply, at most eight.
    pub offset: u8,
}

/// A vault that owns what is locked at one time owns what is locked at any
/// later time: the locked part only shrinks while the books stay as they are.
pub proof fn lemma_solvency_lasts(vault: VaultState, now: u32, later: u32)
    requires
        vault.wf(),
        vault.solvent(now),
        now <= later,
    ensures
        vault.solvent(later),
{
    lemma_unvested_monotonic(
        now,
        later,
        vault.last_distribution_time,
        vault.vesting_period,
        vault.vesting_amount,
    );
}

impl VaultState {
    /// The configuration is valid: the vesting window is not empty, the
    /// padding is in range and the cooldown is within its maximum.
    pub open spec fn wf(&self) -> bool {
        &&& self.vesting_period > 0
        &&& self.offset <= MAX_OFFSET
        &&& self.cooldown <= self.max_cooldown
    }

    /// The part of the last reward that is still locked at `now`.
    pub open spec fn unvested_at(&self, now: u32) -> int {
        unvested_amount(
            now as int,
            self.last_distribution_time as int,
            self.vesting_period as int,
            self.vesting_amount as int,
        )
    }

    /// The vault owns at least what is still locked at `now`.
    pub open spec fn solvent(&self, now: u32) -> bool {
        self.unvested_at(now) <= self.total_assets
    }

    /// What `effective_assets` returns.
    pub open spec fn effective_assets_spec(&self, now: u32) -> Result<u64, StakeError> {
        match unvested_spec(
            now,
            self.last_distribution_time,
            self.vesting_period,
            self.vesting_amount,
        ) {
            Err(e) => Err(e),
            Ok(locked) => if locked > self.total_assets {
                Err(StakeError::Underflow)
            } else {
                Ok((self.total_assets - locked) as u64)
            },
        }
    }

    /// What `convert_to_shares` returns.
    pub open spec fn convert_to_shares_spec(&self, assets: u64, total_supply: u64, now: u32) -> Result<
        u64,
        StakeError,
    > {
        match self.effective_assets_spec(now) {
            Err(e) => Err(e),
            Ok(effective) => shares_for_assets_spec(assets, total_supply, effective, self.offset),
        }
    }

    /// What `convert_to_assets` returns.
    pub open spec fn convert_to_assets_spec(&self, shares: u64, total_supply: u64, now: u32) -> Result<
        u64,
        StakeError,
    > {
        match self.effective_assets_spec(now) {
            Err(e) => Err(e),
            Ok(effective) => assets_for_shares_spec(shares, total_supply, effective, self.offset),
        }
    }

    /// The part of the last reward that is still locked at `now`.
    ///
    /// Fails with `Underflow` where `now` lies before the last distribution.
    pub fn get_unvested(&self, now: u32) -> (r: Result<u64, StakeError>)
        requires
            self.wf(),
        ensures
            r == unvested_spec(
                now,
                self.last_distribution_time,
                self.vesting_period,
                self.vesting_amount,
            ),
            r matches Ok(locked) ==> locked == self.unvested_at(now) && locked
                <= self.vesting_amount,
    {
        proof {
            if now >= self.last_distribution_time {
                lemma_unvested_bounded(
                    now as int,
                    self.last_distribution_time as int,
                    self.vesting_period as int,
                    self.vesting_amount as int,
                );
            }
        }
        unvested(now, self.last_distribution_time, self.vesting_period, self.vesting_amount)
    }

    /// The assets that count for conversions at `now`: all the vault owns
    /// less what is still locked.
    ///
    /// Fails with `Underflow` where `now` lies before the last distribution
    /// or more is locked than the vault owns.
    pub fn effective_assets(&self, now: u32) -> (r: Result<u64, StakeError>)
        requires
            self.wf(),
        ensures
            r == self.effective_assets_spec(now),
            r matches Ok(effective) ==> self.solvent(now) && effective == self.total_assets
                - self.unvested_at(now),
    {
        match self.get_unvested(now) {
            Err(e) => Err(e),
            Ok(locked) => {
                if locked > self.total_assets {
                    Err(StakeError::Underflow)
                } else {
                    Ok(self.total_assets - locked)
                }
            },
        }
    }

    /// Shares that a deposit of `assets` buys at `now`, with `total_supply`
    /// shares outstanding.
    pub fn convert_to_shares(&self, assets: u64, total_supply: u64, now: u32) -> (r: Result<
        u64,
        StakeError,
    >)
        requires
            self.wf(),
        ensures
            r == self.convert_to_shares_spec(assets, total_supply, now),
            r is Ok ==> self.solvent(now),
    {
        match self.effective_assets(now) {
            Err(e) => Err(e),
            Ok(effective) => shares_for_assets(assets, total_supply, effective, self.offset),
        }
    }

    /// Assets that burning `shares` pays out at `now`, with `total_supply`
    /// shares outstanding.
    pub fn convert_to_assets(&self, shares: u64, total_supply: u64, now: u32) -> (r: Result<
        u64,
        StakeError,
    >)
        requires
            self.wf(),
        ensures
            r == self.convert_to_assets_spec(shares, total_supply, now),
            r is Ok ==> self.solvent(now),
    {
        match self.effective_assets(now) {
            Err(e) => Err(e),
            Ok(effective) => assets_for_shares(shares, total_supply, effective, self.offset),
        }
    }

    /// Restarts the vesting window at `now` with `amount` locked. What was
    /// still locked of an earlier reward is locked no longer: the new
    /// schedule replaces the old one.
    pub fn inject_reward(&mut self, now: u32, amount: u64)
        ensures
            *final(self) == (VaultState {
                last_distribution_time: now,
                vesting_amount: amount,
                ..*old(self)
            }),
    {
        self.last_distribution_time = now;
        self.vesting_amount = amount;
    }

    /// Whether the share supply may stand at `total_supply` after an
    /// operation of the caller. Anyone but the administrator must leave it at
    /// zero or at `min_shares` or above.
    pub fn check_min_shares(&self, caller_is_admin: bool, total_supply: u64) -> (r: Result<
        (),
        StakeError,
    >)
        ensures
            r == if !caller_is_admin && 0 < total_supply < self.min_shares {
                Err::<(), StakeError>(StakeError::MinSharesViolation)
            } else {
                Ok::<(), StakeError>(())
            },
    {
        if !caller_is_admin && total_supply > 0 && total_supply < self.min_shares {
            Err(StakeError::MinSharesViolation)
        } else {
            Ok(())
        }
    }
}

} // verus!
