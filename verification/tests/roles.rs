use staking_vault::errors::StakeError;
use staking_vault::keys::Key;
use staking_vault::roles::add_rewarder;
use staking_vault::roles::blacklist;
use staking_vault::roles::find_key;
use staking_vault::roles::remove_from_blacklist;
use staking_vault::roles::remove_rewarder;
use staking_vault::roles::transfer_admin;
use staking_vault::roles::Authority;
use staking_vault::roles::Blacklisted;

fn key(n: u8) -> Key {
    let mut bytes = [0u8; 32];
    bytes[31] = n;
    Key::new(bytes)
}

#[test]
fn keys_compare_by_their_bytes() {
    let mut bytes = [7u8; 32];
    let a = Key::new(bytes);
    assert!(a.same(&Key::new([7u8; 32])));
    assert!(a == Key::new([7u8; 32]));
    for i in 0..32 {
        bytes[i] = 8;
        assert!(!a.same(&Key::new(bytes)));
        assert!(a != Key::new(bytes));
        bytes[i] = 7;
    }
}

#[test]
fn administrator_is_one_key() {
    let authority = Authority::new(key(1));
    assert!(authority.is_admin(&key(1)));
    assert!(!authority.is_admin(&key(2)));
    assert!(authority.rewarders.is_empty());
}

#[test]
fn rewarders_are_added_in_order() {
    let mut authority = Authority::new(key(1));
    assert_eq!(add_rewarder(&mut authority, &key(1), key(5)), Ok(()));
    assert_eq!(add_rewarder(&mut authority, &key(1), key(6)), Ok(()));
    assert_eq!(authority.rewarders, vec![key(5), key(6)]);
    assert!(authority.is_rewarder(&key(5)));
    assert!(authority.is_rewarder(&key(6)));
    assert!(!authority.is_rewarder(&key(1)));
    assert_eq!(find_key(&authority.rewarders, &key(6)), Some(1));
    assert_eq!(find_key(&authority.rewarders, &key(7)), None);
}

#[test]
fn rewarder_is_added_once() {
    let mut authority = Authority::new(key(1));
    assert_eq!(add_rewarder(&mut authority, &key(1), key(5)), Ok(()));
    assert_eq!(add_rewarder(&mut authority, &key(1), key(5)), Err(StakeError::AlreadyRewarder));
    assert_eq!(authority.rewarders, vec![key(5)]);
}

#[test]
fn only_the_administrator_names_rewarders() {
    let mut authority = Authority::new(key(1));
    assert_eq!(add_rewarder(&mut authority, &key(2), key(5)), Err(StakeError::NotAdmin));
    assert!(authority.rewarders.is_empty());
    assert_eq!(add_rewarder(&mut authority, &key(1), key(5)), Ok(()));
    assert_eq!(add_rewarder(&mut authority, &key(5), key(5)), Err(StakeError::NotAdmin));
    assert_eq!(remove_rewarder(&mut authority, &key(5), key(5)), Err(StakeError::NotAdmin));
    assert_eq!(authority.rewarders, vec![key(5)]);
}

#[test]
fn removed_rewarder_is_replaced_by_the_last() {
    let mut authority = Authority::new(key(1));
    for n in 5..9 {
        assert_eq!(add_rewarder(&mut authority, &key(1), key(n)), Ok(()));
    }
    assert_eq!(remove_rewarder(&mut authority, &key(1), key(5)), Ok(()));
    assert_eq!(authority.rewarders, vec![key(8), key(6), key(7)]);
    assert_eq!(remove_rewarder(&mut authority, &key(1), key(7)), Ok(()));
    assert_eq!(authority.rewarders, vec![key(8), key(6)]);
    assert_eq!(remove_rewarder(&mut authority, &key(1), key(5)), Err(StakeError::NotRewarderYet));
    assert_eq!(authority.rewarders, vec![key(8), key(6)]);
    assert_eq!(remove_rewarder(&mut authority, &key(1), key(8)), Ok(()));
    assert_eq!(remove_rewarder(&mut authority, &key(1), key(6)), Ok(()));
    assert!(authority.rewarders.is_empty());
}

#[test]
fn administration_changes_hands() {
    let mut authority = Authority::new(key(1));
    assert_eq!(add_rewarder(&mut authority, &key(1), key(5)), Ok(()));
    assert_eq!(transfer_admin(&mut authority, &key(2), key(2)), Err(StakeError::NotAdmin));
    assert!(authority.is_admin(&key(1)));
    assert_eq!(transfer_admin(&mut authority, &key(1), key(2)), Ok(()));
    assert!(authority.is_admin(&key(2)));
    assert!(!authority.is_admin(&key(1)));
    assert_eq!(authority.rewarders, vec![key(5)]);
    assert_eq!(transfer_admin(&mut authority, &key(1), key(1)), Err(StakeError::NotAdmin));
}

#[test]
fn blacklist_entry_is_set_and_cleared() {
    let mut entry = Blacklisted { user: key(0), blacklisted: false };
    assert_eq!(remove_from_blacklist(&mut entry, true, key(3)), Err(StakeError::NotBlacklisted));
    assert_eq!(blacklist(&mut entry, false, key(3)), Err(StakeError::NotAdmin));
    assert!(!entry.blacklisted);
    assert!(entry.user == key(0));
    assert_eq!(blacklist(&mut entry, true, key(3)), Ok(()));
    assert!(entry.blacklisted);
    assert!(entry.user == key(3));
    assert_eq!(blacklist(&mut entry, true, key(3)), Err(StakeError::AlreadyBlacklisted));
    assert_eq!(blacklist(&mut entry, false, key(3)), Err(StakeError::AlreadyBlacklisted));
    assert_eq!(remove_from_blacklist(&mut entry, false, key(3)), Err(StakeError::NotAdmin));
    assert!(entry.blacklisted);
    assert_eq!(remove_from_blacklist(&mut entry, true, key(3)), Ok(()));
    assert!(!entry.blacklisted);
}

#[test]
fn errors_say_what_went_wrong() {
    assert_eq!(StakeError::ZeroShares.message(), "Deposit is too small to receive shares");
    assert_eq!(StakeError::AssetsUnavailable.message(), "Insufficient assets available");
    assert_eq!(StakeError::RewardVestingOngoing.message(), "Reward vesting is ongoing");
    assert_eq!(StakeError::InvalidVestingPeriod.message(), "Vesting period must be non-zero");
    assert_eq!(StakeError::Blacklisted.message(), "The user is prohibited from staking");
    assert_eq!(StakeError::InvalidCooldownState.message(), "Invalid cooldown state");
    assert_ne!(StakeError::Overflow.message(), StakeError::Underflow.message());
}
