use std::collections::VecDeque;

use staking_vault::cooldown::UserPDA;
use staking_vault::errors::StakeError;
use staking_vault::operations::check_available_assets;
use staking_vault::operations::initialize_vault_state;
use staking_vault::operations::refresh_cooldowns;
use staking_vault::operations::reward;
use staking_vault::operations::set_cooldown;
use staking_vault::operations::set_vesting_period;
use staking_vault::operations::stake;
use staking_vault::operations::start_unstake;
use staking_vault::operations::unstake;
use staking_vault::state::VaultState;
use staking_vault::state::DEFAULT_VESTING_PERIOD;

fn fresh_vault() -> VaultState {
    initialize_vault_state(3600, 86_400, 0, 0).unwrap()
}

#[test]
fn new_vault_is_empty() {
    let vault = initialize_vault_state(3600, 86_400, 25, 6).unwrap();
    assert_eq!(
        vault,
        VaultState {
            vesting_amount: 0,
            total_assets: 0,
            min_shares: 25,
            last_distribution_time: 0,
            cooldown: 3600,
            max_cooldown: 86_400,
            vesting_period: 28_800,
            offset: 6,
        }
    );
    assert_eq!(DEFAULT_VESTING_PERIOD, 8 * 3600);
}

#[test]
fn new_vault_with_a_bad_configuration() {
    assert_eq!(initialize_vault_state(10, 5, 0, 0), Err(StakeError::InvalidCooldown));
    assert_eq!(initialize_vault_state(5, 5, 0, 9), Err(StakeError::InvalidOffset));
    assert_eq!(initialize_vault_state(10, 5, 0, 9), Err(StakeError::InvalidCooldown));
    assert!(initialize_vault_state(5, 5, 0, 8).is_ok());
}

#[test]
fn first_stake_mints_one_share_per_asset() {
    let mut vault = fresh_vault();
    assert_eq!(stake(&mut vault, false, 0, 0, 1000), Ok(1000));
    assert_eq!(vault.total_assets, 1000);
}

#[test]
fn stake_prices_shares_on_vested_assets() {
    let mut vault = fresh_vault();
    vault.total_assets = 1300;
    vault.vesting_amount = 300;
    vault.last_distribution_time = 28_800;
    // 183 of the reward are still locked: 50 * (1000 + 1) / (1117 + 1)
    assert_eq!(stake(&mut vault, false, 1000, 40_000, 50), Ok(44));
    assert_eq!(vault.total_assets, 1350);
    assert_eq!(vault.vesting_amount, 300);
    assert_eq!(vault.last_distribution_time, 28_800);
}

#[test]
fn stake_that_buys_nothing_is_refused() {
    let mut vault = fresh_vault();
    vault.total_assets = 1_000_000;
    let before = vault;
    assert_eq!(stake(&mut vault, false, 10, 0, 5), Err(StakeError::ZeroShares));
    assert_eq!(vault, before);
    assert_eq!(stake(&mut vault, false, 10, 0, 0), Err(StakeError::ZeroShares));
    assert_eq!(vault, before);
    let mut empty = fresh_vault();
    assert_eq!(stake(&mut empty, false, 0, 0, 0), Err(StakeError::ZeroShares));
    assert_eq!(empty, fresh_vault());
}

#[test]
fn stake_beyond_the_capacity_of_the_books() {
    let mut vault = fresh_vault();
    vault.total_assets = u64::MAX - 5;
    let before = vault;
    assert_eq!(stake(&mut vault, false, u64::MAX, 0, 10), Err(StakeError::Overflow));
    assert_eq!(vault, before);
    assert_eq!(stake(&mut vault, false, u64::MAX, 0, 5), Ok(5));
    assert_eq!(vault.total_assets, u64::MAX);
}

#[test]
fn stake_before_the_last_distribution() {
    let mut vault = fresh_vault();
    vault.last_distribution_time = 100;
    let before = vault;
    assert_eq!(stake(&mut vault, false, 0, 99, 10), Err(StakeError::Underflow));
    assert_eq!(vault, before);
}

#[test]
fn more_locked_than_owned() {
    let mut vault = fresh_vault();
    vault.total_assets = 100;
    vault.inject_reward(0, 1000);
    assert_eq!(vault.effective_assets(0), Err(StakeError::Underflow));
    assert_eq!(vault.convert_to_shares(1, 1, 0), Err(StakeError::Underflow));
    assert_eq!(vault.convert_to_assets(1, 1, 0), Err(StakeError::Underflow));
    // 90% of the window later 100 are locked
    assert_eq!(vault.effective_assets(25_920), Ok(0));
}

#[test]
fn reward_vests_linearly() {
    let mut vault = fresh_vault();
    assert_eq!(stake(&mut vault, false, 0, 28_800, 10_000), Ok(10_000));
    assert_eq!(reward(&mut vault, true, 28_800, 8_640), Ok(()));
    assert_eq!(vault.total_assets, 18_640);
    assert_eq!(vault.vesting_amount, 8_640);
    assert_eq!(vault.last_distribution_time, 28_800);
    assert_eq!(vault.get_unvested(28_800), Ok(8_640));
    assert_eq!(vault.effective_assets(28_800), Ok(10_000));
    assert_eq!(vault.get_unvested(43_200), Ok(4_320));
    assert_eq!(vault.effective_assets(43_200), Ok(14_320));
    assert_eq!(vault.get_unvested(57_600), Ok(0));
    assert_eq!(vault.effective_assets(57_600), Ok(18_640));
}

#[test]
fn reward_at_time_zero_is_half_vested_after_half_the_period() {
    let mut vault = fresh_vault();
    assert_eq!(vault.vesting_period, 28_800);
    vault.total_assets = 20_000;
    assert_eq!(reward(&mut vault, true, 0, 8_640), Ok(()));
    assert_eq!(vault.total_assets, 28_640);
    assert_eq!(vault.get_unvested(14_400), Ok(4_320));
    assert_eq!(vault.effective_assets(14_400), Ok(28_640 - 4_320));
}

#[test]
fn injected_reward_restarts_the_clock() {
    let mut vault = fresh_vault();
    vault.total_assets = 20_000;
    vault.inject_reward(500, 8_640);
    assert_eq!(vault.last_distribution_time, 500);
    assert_eq!(vault.vesting_amount, 8_640);
    assert_eq!(vault.total_assets, 20_000);
    assert_eq!(vault.get_unvested(500), Ok(8_640));
    assert_eq!(vault.get_unvested(14_900), Ok(4_320));
    assert_eq!(vault.effective_assets(14_900), Ok(20_000 - 4_320));
}

#[test]
fn new_reward_replaces_the_schedule() {
    let mut vault = fresh_vault();
    vault.total_assets = 5_000;
    vault.inject_reward(0, 1_000);
    assert_eq!(vault.get_unvested(14_400), Ok(500));
    vault.inject_reward(14_400, 200);
    assert_eq!(vault.get_unvested(14_400), Ok(200));
    assert_eq!(vault.get_unvested(28_800), Ok(100));
    assert_eq!(vault.total_assets, 5_000);
}

#[test]
fn reward_is_refused_while_one_is_vesting() {
    let mut vault = fresh_vault();
    assert_eq!(reward(&mut vault, true, 100, 10), Ok(()));
    let before = vault;
    assert_eq!(reward(&mut vault, true, 100, 20), Err(StakeError::RewardVestingOngoing));
    assert_eq!(reward(&mut vault, true, 28_899, 20), Err(StakeError::RewardVestingOngoing));
    assert_eq!(vault, before);
    assert_eq!(reward(&mut vault, true, 28_900, 20), Ok(()));
    assert_eq!(vault.total_assets, 30);
    assert_eq!(vault.vesting_amount, 20);
    assert_eq!(vault.last_distribution_time, 28_900);
}

#[test]
fn reward_of_nothing_holds_nothing_up() {
    let mut vault = fresh_vault();
    assert_eq!(reward(&mut vault, true, 100, 0), Ok(()));
    assert_eq!(vault.last_distribution_time, 100);
    assert_eq!(reward(&mut vault, true, 101, 7), Ok(()));
    assert_eq!(vault.total_assets, 7);
    assert_eq!(vault.vesting_amount, 7);
    assert_eq!(vault.last_distribution_time, 101);
}

#[test]
fn reward_from_a_stranger_is_refused() {
    let mut vault = fresh_vault();
    assert_eq!(reward(&mut vault, false, 28_800, 10), Err(StakeError::NotRewarder));
    assert_eq!(reward(&mut vault, false, 0, 10), Err(StakeError::NotRewarder));
    assert_eq!(vault, fresh_vault());
}

#[test]
fn reward_before_the_last_distribution() {
    let mut vault = fresh_vault();
    vault.last_distribution_time = 100;
    let before = vault;
    assert_eq!(reward(&mut vault, true, 50, 10), Err(StakeError::Underflow));
    assert_eq!(vault, before);
}

#[test]
fn reward_beyond_the_capacity_of_the_books() {
    let mut vault = fresh_vault();
    vault.total_assets = u64::MAX;
    let before = vault;
    assert_eq!(reward(&mut vault, true, 28_800, 1), Err(StakeError::Overflow));
    assert_eq!(vault, before);
}

#[test]
fn unstake_waits_for_the_cooldown() {
    let mut vault = fresh_vault();
    let mut user = UserPDA::new();
    assert_eq!(stake(&mut vault, false, 0, 0, 1000), Ok(1000));
    // 500 * (1000 + 1) / (1000 + 1)
    assert_eq!(start_unstake(&mut vault, &mut user, false, 1000, 100, 500), Ok(500));
    assert_eq!(vault.total_assets, 500);
    assert_eq!(user.unstake_queue, VecDeque::from(vec![(3700, 500)]));
    assert_eq!(user.assets_available, 0);

    assert_eq!(check_available_assets(&mut user, 3699), Ok(0));
    assert_eq!(user.unstake_queue, VecDeque::from(vec![(3700, 500)]));
    assert_eq!(unstake(&mut user, false, 3699, 500), Err(StakeError::AssetsUnavailable));

    assert_eq!(check_available_assets(&mut user, 3700), Ok(500));
    assert_eq!(user.assets_available, 500);
    assert!(user.unstake_queue.is_empty());
    assert_eq!(unstake(&mut user, false, 3700, 200), Ok(200));
    assert_eq!(user.assets_available, 300);
}

#[test]
fn unstake_settles_before_it_pays() {
    let mut user = UserPDA::new();
    user.assets_available = 5;
    user.enqueue(10, 20);
    user.enqueue(30, 40);
    assert_eq!(unstake(&mut user, false, 10, 25), Ok(25));
    assert_eq!(user.assets_available, 0);
    assert_eq!(user.unstake_queue, VecDeque::from(vec![(30, 40)]));
}

#[test]
fn unstake_of_more_than_has_matured() {
    let mut user = UserPDA::new();
    user.assets_available = 5;
    user.enqueue(10, 20);
    user.enqueue(30, 40);
    assert_eq!(unstake(&mut user, false, 29, 26), Err(StakeError::AssetsUnavailable));
    assert_eq!(user.assets_available, 5);
    assert_eq!(user.unstake_queue, VecDeque::from(vec![(10, 20), (30, 40)]));
}

#[test]
fn unstake_that_does_not_fit() {
    let mut user = UserPDA::new();
    user.assets_available = u64::MAX;
    user.enqueue(10, 1);
    assert_eq!(unstake(&mut user, false, 10, 1), Err(StakeError::Overflow));
    assert_eq!(user.assets_available, u64::MAX);
    assert_eq!(user.unstake_queue, VecDeque::from(vec![(10, 1)]));
    assert_eq!(unstake(&mut user, false, 9, 1), Ok(1));
}

#[test]
fn start_unstake_prices_shares_on_vested_assets() {
    let mut vault = fresh_vault();
    vault.total_assets = 1350;
    vault.vesting_amount = 300;
    vault.last_distribution_time = 28_800;
    let mut user = UserPDA::new();
    // nothing is locked any more: 100 * (1350 + 1) / (1044 + 1)
    assert_eq!(start_unstake(&mut vault, &mut user, false, 1044, 60_000, 100), Ok(129));
    assert_eq!(vault.total_assets, 1221);
    assert_eq!(user.unstake_queue, VecDeque::from(vec![(63_600, 129)]));
}

#[test]
fn start_unstake_for_nothing_is_refused() {
    let mut vault = fresh_vault();
    vault.total_assets = 10;
    let before = vault;
    let mut user = UserPDA::new();
    // 1 * 11 / 1001
    assert_eq!(
        start_unstake(&mut vault, &mut user, false, 1000, 0, 1),
        Err(StakeError::ZeroAssets)
    );
    assert_eq!(vault, before);
    assert!(user.unstake_queue.is_empty());
}

#[test]
fn start_unstake_of_more_than_is_vested() {
    let mut vault = fresh_vault();
    vault.total_assets = 1000;
    let before = vault;
    let mut user = UserPDA::new();
    // 100 * 1001 / 11 = 9100 assets for shares that do not exist
    assert_eq!(
        start_unstake(&mut vault, &mut user, false, 10, 0, 100),
        Err(StakeError::Underflow)
    );
    assert_eq!(vault, before);
    assert!(user.unstake_queue.is_empty());

    // the locked part of a reward cannot leave either
    vault.inject_reward(0, 600);
    assert_eq!(
        start_unstake(&mut vault, &mut user, false, 0, 0, 401),
        Err(StakeError::Underflow)
    );
    assert_eq!(start_unstake(&mut vault, &mut user, false, 0, 0, 400), Ok(400));
    assert_eq!(vault.total_assets, 600);
}

#[test]
fn start_unstake_past_the_end_of_time() {
    let mut vault = fresh_vault();
    vault.total_assets = 1000;
    let before = vault;
    let mut user = UserPDA::new();
    assert_eq!(
        start_unstake(&mut vault, &mut user, false, 1000, u32::MAX - 3599, 10),
        Err(StakeError::Overflow)
    );
    assert_eq!(vault, before);
    assert!(user.unstake_queue.is_empty());
    assert_eq!(start_unstake(&mut vault, &mut user, false, 1000, u32::MAX - 3600, 10), Ok(10));
    assert_eq!(user.unstake_queue, VecDeque::from(vec![(u32::MAX, 10)]));
}

#[test]
fn blacklisted_caller_is_refused() {
    let mut vault = fresh_vault();
    vault.total_assets = 1000;
    let before = vault;
    let mut user = UserPDA::new();
    user.assets_available = 50;
    user.enqueue(0, 10);
    for (supply, now, amount) in [(0u64, 0u32, 0u64), (1000, 100, 10), (5, u32::MAX, u64::MAX)] {
        assert_eq!(stake(&mut vault, true, supply, now, amount), Err(StakeError::Blacklisted));
        assert_eq!(
            start_unstake(&mut vault, &mut user, true, supply, now, amount),
            Err(StakeError::Blacklisted)
        );
        assert_eq!(unstake(&mut user, true, now, amount), Err(StakeError::Blacklisted));
        assert_eq!(vault, before);
        assert_eq!(user.assets_available, 50);
        assert_eq!(user.unstake_queue, VecDeque::from(vec![(0, 10)]));
    }
}

#[test]
fn assets_are_conserved() {
    let mut vault = fresh_vault();
    let mut user = UserPDA::new();
    let initial = vault.total_assets;
    assert_eq!(stake(&mut vault, false, 0, 28_800, 1000), Ok(1000));
    assert_eq!(reward(&mut vault, true, 28_800, 300), Ok(()));
    assert_eq!(stake(&mut vault, false, 1000, 40_000, 50), Ok(44));
    assert_eq!(start_unstake(&mut vault, &mut user, false, 1044, 60_000, 100), Ok(129));
    // refused operations move nothing
    assert_eq!(stake(&mut vault, true, 944, 60_000, 77), Err(StakeError::Blacklisted));
    assert_eq!(reward(&mut vault, false, 60_000, 77), Err(StakeError::NotRewarder));
    assert_eq!(reward(&mut vault, true, 40_000, 77), Err(StakeError::RewardVestingOngoing));
    assert_eq!(reward(&mut vault, true, 28_799, 77), Err(StakeError::Underflow));
    assert_eq!(vault.total_assets, initial + 1000 + 300 + 50 - 129);
    assert_eq!(vault.total_assets, 1221);
}

#[test]
fn cooldown_is_set_within_its_maximum() {
    let mut vault = fresh_vault();
    assert_eq!(set_cooldown(&mut vault, false, 10), Err(StakeError::NotAdmin));
    assert_eq!(set_cooldown(&mut vault, true, 86_401), Err(StakeError::InvalidCooldown));
    assert_eq!(set_cooldown(&mut vault, false, 86_401), Err(StakeError::NotAdmin));
    assert_eq!(vault, fresh_vault());
    assert_eq!(set_cooldown(&mut vault, true, 86_400), Ok(()));
    assert_eq!(vault.cooldown, 86_400);
    assert_eq!(set_cooldown(&mut vault, true, 0), Ok(()));
    assert_eq!(vault.cooldown, 0);
}

#[test]
fn vesting_period_is_never_zero() {
    let mut vault = fresh_vault();
    assert_eq!(set_vesting_period(&mut vault, false, 10), Err(StakeError::NotAdmin));
    assert_eq!(set_vesting_period(&mut vault, true, 0), Err(StakeError::InvalidVestingPeriod));
    assert_eq!(set_vesting_period(&mut vault, false, 0), Err(StakeError::NotAdmin));
    assert_eq!(vault, fresh_vault());
    assert_eq!(set_vesting_period(&mut vault, true, 1), Ok(()));
    assert_eq!(vault.vesting_period, 1);
}

#[test]
fn shorter_cooldown_reaches_pending_unstakes() {
    let mut vault = fresh_vault();
    vault.total_assets = 1000;
    let mut user = UserPDA::new();
    assert_eq!(start_unstake(&mut vault, &mut user, false, 1000, 100, 10), Ok(10));
    assert_eq!(start_unstake(&mut vault, &mut user, false, 990, 200, 10), Ok(10));
    assert_eq!(user.unstake_queue, VecDeque::from(vec![(3700, 10), (3800, 10)]));
    assert_eq!(set_cooldown(&mut vault, true, 60), Ok(()));
    assert_eq!(refresh_cooldowns(&vault, &mut user, 3690), Ok(()));
    assert_eq!(user.unstake_queue, VecDeque::from(vec![(3700, 10), (3750, 10)]));
    assert_eq!(refresh_cooldowns(&vault, &mut user, u32::MAX), Err(StakeError::Overflow));
    assert_eq!(user.unstake_queue, VecDeque::from(vec![(3700, 10), (3750, 10)]));
}

#[test]
fn share_supply_below_the_minimum() {
    let vault = initialize_vault_state(0, 0, 100, 0).unwrap();
    assert_eq!(vault.check_min_shares(false, 0), Ok(()));
    assert_eq!(vault.check_min_shares(false, 1), Err(StakeError::MinSharesViolation));
    assert_eq!(vault.check_min_shares(false, 99), Err(StakeError::MinSharesViolation));
    assert_eq!(vault.check_min_shares(false, 100), Ok(()));
    assert_eq!(vault.check_min_shares(true, 99), Ok(()));
}

#[test]
fn conversions_of_the_vault_use_its_offset() {
    let mut vault = initialize_vault_state(0, 0, 0, 3).unwrap();
    vault.total_assets = 99;
    assert_eq!(vault.convert_to_shares(500, 2000, 0), Ok(15_000));
    assert_eq!(vault.convert_to_assets(15_000, 2000, 0), Ok(500));
    assert_eq!(vault.convert_to_shares(1, 0, 0), Ok(10));
}
