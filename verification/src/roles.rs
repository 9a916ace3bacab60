//! Who may do what: the administrator of a vault, its approved reward
//! sources, and the blacklist entry of a user.

use vstd::prelude::*;
use crate::errors::StakeError;
use crate::keys::Key;

verus! {

/// The index of the first occurrence of `key` in `keys`, or the length of
/// `keys` where it does not occur.
pub open spec fn position(keys: Seq<Key>, key: Key) -> int
    decreases keys.len(),
{
    if keys.len() == 0 || keys[0] == key {
        0
    } else {
        1 + position(keys.skip(1), key)
    }
}

/// `position` is the one index `i` before which `key` does not occur and at
/// which it does, or the length where it occurs nowhere.
pub proof fn lemma_position_is(keys: Seq<Key>, key: Key, i: int)
    requires
        0 <= i <= keys.len(),
        forall|j: int| 0 <= j < i ==> keys[j] != key,
        i < keys.len() ==> keys[i] == key,
    ensures
        position(keys, key) == i,
        (i < keys.len()) == keys.contains(key),
    decreases keys.len(),
{
    if i > 0 {
        let rest = keys.skip(1);
        assert(keys[0] != key);
        assert forall|j: int| 0 <= j < i - 1 implies rest[j] != key by {
            assert(rest[j] == keys[j + 1]);
        }
        lemma_position_is(rest, key, i - 1);
    }
}

/// `keys` without the first occurrence of `key`: the last key takes its
/// place and the list is shortened by one.
pub open spec fn without(keys: Seq<Key>, key: Key) -> Seq<Key> {
    keys.update(position(keys, key), keys.last()).drop_last()
}

/// The index of the first occurrence of `key` in `keys`.
pub fn find_key(keys: &Vec<Key>, key: &Key) -> (r: Option<usize>)
    ensures
        match r {
            Some(i) => i < keys@.len() && i == position(keys@, *key) && keys@.contains(*key),
            None => !keys@.contains(*key),
        },
{
    let mut i: usize = 0;
    while i < keys.len()
        invariant
            i <= keys@.len(),
            forall|j: int| 0 <= j < i ==> keys@[j] != *key,
        decreases keys@.len() - i,
    {
        if keys[i] == *key {
            proof {
                lemma_position_is(keys@, *key, i as int);
            }
            return Some(i);
        }
        i = i + 1;
    }
    proof {
        lemma_position_is(keys@, *key, i as int);
    }
    None
}

/// Appends `key` to `keys` unless it occurs there, and says whether it did.
pub fn insert_key(keys: &mut Vec<Key>, key: Key) -> (added: bool)
    ensures
        added == !old(keys)@.contains(key),
        added ==> final(keys)@ == old(keys)@.push(key),
        !added ==> *final(keys) == *old(keys),
{
    if find_key(keys, &key).is_some() {
        return false;
    }
    keys.push(key);
    true
}

/// Removes the first occurrence of `key` from `keys`, putting the last key
/// in its place, and says whether there was one.
pub fn remove_key(keys: &mut Vec<Key>, key: &Key) -> (removed: bool)
    ensures
        removed == old(keys)@.contains(*key),
        removed ==> final(keys)@ == without(old(keys)@, *key),
        !removed ==> *final(keys) == *old(keys),
{
    match find_key(keys, key) {
        None => false,
        Some(i) => {
            let _ = keys.swap_remove(i);
            true
        },
    }
}

/// The blacklist entry of one user.
#[derive(Clone, Copy, Debug)]
pub struct Blacklisted {
    /// The user the entry is about.
    pub user: Key,
    /// Whether the user is barred from staking and unstaking.
    pub blacklisted: bool,
}

/// The administrator of a vault and its approved reward sources.
#[derive(Debug)]
pub struct Authority {
    /// The one key that may configure the vault.
    pub admin: Key,
    /// The keys that may pay rewards in.
    pub rewarders: Vec<Key>,
}

impl Authority {
    /// An authority with `admin` as administrator and no reward source.
    pub fn new(admin: Key) -> (r: Authority)
        ensures
            r.admin == admin,
            r.rewarders@ == Seq::<Key>::empty(),
    {
        Authority { admin, rewarders: Vec::with_capacity(20) }
    }

    /// Whether `caller` is the administrator.
    pub fn is_admin(&self, caller: &Key) -> (r: bool)
        ensures
            r == (self.admin == *caller),
    {
        self.admin == *caller
    }

    /// Whether `caller` is an approved reward source.
    pub fn is_rewarder(&self, caller: &Key) -> (r: bool)
        ensures
            r == self.rewarders@.contains(*caller),
    {
        find_key(&self.rewarders, caller).is_some()
    }
}

/// Approves `rewarder` as a reward source, behind those approved before.
///
/// Fails with `NotAdmin` where `caller` is not the administrator, else with
/// `AlreadyRewarder` where `rewarder` is approved already.
pub fn add_rewarder(authority: &mut Authority, caller: &Key, rewarder: Key) -> (r: Result<
    (),
    StakeError,
>)
    ensures
        r == if old(authority).admin != *caller {
            Err::<(), StakeError>(StakeError::NotAdmin)
        } else if old(authority).rewarders@.contains(rewarder) {
            Err::<(), StakeError>(StakeError::AlreadyRewarder)
        } else {
            Ok::<(), StakeError>(())
        },
        r is Ok ==> final(authority).admin == old(authority).admin && final(authority).rewarders@
            == old(authority).rewarders@.push(rewarder),
        r is Err ==> *final(authority) == *old(authority),
{
    if !authority.is_admin(caller) {
        return Err(StakeError::NotAdmin);
    }
    if insert_key(&mut authority.rewarders, rewarder) {
        Ok(())
    } else {
        Err(StakeError::AlreadyRewarder)
    }
}

/// Withdraws the approval of `rewarder`. Its first occurrence is replaced by
/// the last reward source, and the list is shortened by one.
///
/// Fails with `NotAdmin` where `caller` is not the administrator, else with
/// `NotRewarderYet` where `rewarder` is not approved.
pub fn remove_rewarder(authority: &mut Authority, caller: &Key, rewarder: Key) -> (r: Result<
    (),
    StakeError,
>)
    ensures
        r == if old(authority).admin != *caller {
            Err::<(), StakeError>(StakeError::NotAdmin)
        } else if !old(authority).rewarders@.contains(rewarder) {
            Err::<(), StakeError>(StakeError::NotRewarderYet)
        } else {
            Ok::<(), StakeError>(())
        },
        r is Ok ==> final(authority).admin == old(authority).admin && final(authority).rewarders@
            == without(old(authority).rewarders@, rewarder),
        r is Err ==> *final(authority) == *old(authority),
{
    if !authority.is_admin(caller) {
        return Err(StakeError::NotAdmin);
    }
    if remove_key(&mut authority.rewarders, &rewarder) {
        Ok(())
    } else {
        Err(StakeError::NotRewarderYet)
    }
}

/// Hands the administration of the vault to `new_admin`.
///
/// Fails with `NotAdmin` where `caller` is not the administrator.
pub fn transfer_admin(authority: &mut Authority, caller: &Key, new_admin: Key) -> (r: Result<
    (),
    StakeError,
>)
    ensures
        r == if old(authority).admin != *caller {
            Err::<(), StakeError>(StakeError::NotAdmin)
        } else {
            Ok::<(), StakeError>(())
        },
        r is Ok ==> final(authority).admin == new_admin && final(authority).rewarders == old(authority).rewarders,
        r is Err ==> *final(authority) == *old(authority),
{
    if !authority.is_admin(caller) {
        return Err(StakeError::NotAdmin);
    }
    authority.admin = new_admin;
    Ok(())
}

/// Bars `user` from staking and unstaking.
///
/// Fails with `AlreadyBlacklisted` where the entry bars its user already,
/// else with `NotAdmin` where the caller is not the administrator.
pub fn blacklist(entry: &mut Blacklisted, is_admin: bool, user: Key) -> (r: Result<(), StakeError>)
    ensures
        r == if old(entry).blacklisted {
            Err::<(), StakeError>(StakeError::AlreadyBlacklisted)
        } else if !is_admin {
            Err::<(), StakeError>(StakeError::NotAdmin)
        } else {
            Ok::<(), StakeError>(())
        },
        r is Ok ==> *final(entry) == (Blacklisted { user, blacklisted: true }),
        r is Err ==> *final(entry) == *old(entry),
{
    if entry.blacklisted {
        return Err(StakeError::AlreadyBlacklisted);
    }
    if !is_admin {
        return Err(StakeError::NotAdmin);
    }
    entry.user = user;
    entry.blacklisted = true;
    Ok(())
}

/// Lets `user` stake and unstake again.
///
/// Fails with `NotBlacklisted` where the entry does not bar its user, else
/// with `NotAdmin` where the caller is not the administrator.
pub fn remove_from_blacklist(entry: &mut Blacklisted, is_admin: bool, user: Key) -> (r: Result<
    (),
    StakeError,
>)
    ensures
        r == if !old(entry).blacklisted {
            Err::<(), StakeError>(StakeError::NotBlacklisted)
        } else if !is_admin {
            Err::<(), StakeError>(StakeError::NotAdmin)
        } else {
            Ok::<(), StakeError>(())
        },
        r is Ok ==> *final(entry) == (Blacklisted { user, blacklisted: false }),
        r is Err ==> *final(entry) == *old(entry),
{
    if !entry.blacklisted {
        return Err(StakeError::NotBlacklisted);
    }
    if !is_admin {
        return Err(StakeError::NotAdmin);
    }
    entry.user = user;
    entry.blacklisted = false;
    Ok(())
}

} // verus!
