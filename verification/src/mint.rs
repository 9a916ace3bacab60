//! The rules of the mint vault: collateral is deposited against freshly
//! minted vault tokens and redeemed again at rates that the administrator
//! sets per asset, by users that a role manager has approved.
//!
//! The vault token has nine decimals. Collateral with fewer decimals is
//! scaled up to nine before a rate is applied on deposit, and scaled down
//! again after the rate on redemption. A rate is a number of units per unit,
//! scaled by `10^9`; a rate of zero marks an asset that the vault does not
//! take.

use vstd::prelude::*;
use crate::keys::Key;
use crate::math::lemma_pow10_fits;
use crate::math::lemma_pow10_positive;
use crate::math::pow10;
use crate::math::pow10_u64;
use crate::roles::insert_key;
use crate::roles::find_key;
use crate::roles::remove_key;
use crate::roles::without;

verus! {

/// The scale of a rate: a rate of `10^9` is one for one.
pub const DECIMALS_SCALAR: u128 = 1_000_000_000;

/// The decimals of the vault token.
pub const VAULT_DECIMALS: u8 = 9;

/// An address can be added while no more than this many are listed.
pub const MAX_WITHDRAW_ADDRESSES: usize = 50;

/// A manager can be added while no more than this many are listed.
pub const MAX_MANAGER_ADDRESSES: usize = 20;

/// Why an instruction of the mint vault was refused.
#[derive(Clone, Copy, Debug, PartialEq, Eq, Structural)]
pub enum MintError {
    /// The depositor is not approved to mint.
    NotAnApprovedMinter,
    /// The redeemer is not approved to redeem.
    NotAnApprovedRedeemer,
    /// The caller is not a manager.
    NotManager,
    /// The caller is not the administrator.
    NotAdmin,
    /// The destination is not a listed withdraw address.
    NotWithdrawer,
    /// The minter is approved already.
    AlreadyMinter,
    /// The redeemer is approved already.
    AlreadyRedeemer,
    /// The withdraw address is listed already.
    AlreadyWithdrawer,
    /// The key is an asset manager already.
    AlreadyAssetManager,
    /// The key is a role manager already.
    AlreadyRoleManager,
    /// The minter is not approved.
    MinterNotWhitelisted,
    /// The withdraw address is not listed.
    AddressNotWhitelisted,
    /// The redeemer is not approved.
    RedeemerNotWhitelisted,
    /// The key to remove is not a manager.
    NotManagerYet,
    /// The address to remove is not listed.
    NotWithdrawerYet,
    /// More was minted in this block than is allowed.
    MaxMintExceeded,
    /// More was redeemed in this block than is allowed.
    MaxRedeemExceeded,
    /// The vault has no rate for the asset.
    AssetNotSupported,
    /// The vault has a rate for the asset already.
    AssetAlreadySupported,
    /// The list is full.
    MaxArrayLength,
}

impl MintError {
    /// The text of `message`.
    pub open spec fn message_text(&self) -> Seq<char> {
        match self {
            MintError::NotAnApprovedMinter => "The provided account is not an approved minter"@,
            MintError::NotAnApprovedRedeemer => "The provided account is not an approved redeemer"@,
            MintError::NotManager => "The caller is not a manager"@,
            MintError::NotAdmin => "The caller is not an admin"@,
            MintError::NotWithdrawer => "The provided address is not a whitelisted withdraw address"@,
            MintError::AlreadyMinter => "The minter is already whitelisted"@,
            MintError::AlreadyRedeemer => "The redeemer is already whitelisted"@,
            MintError::AlreadyWithdrawer => "The withdraw address is already whitelisted"@,
            MintError::AlreadyAssetManager => "The provided key is already an asset manager"@,
            MintError::AlreadyRoleManager => "The provided key is already a role manager"@,
            MintError::MinterNotWhitelisted => "The minter is not whitelisted"@,
            MintError::AddressNotWhitelisted => "The withdraw address is not whitelisted"@,
            MintError::RedeemerNotWhitelisted => "The redeemer is not whitelisted"@,
            MintError::NotManagerYet => "The provided key is not yet a manager"@,
            MintError::NotWithdrawerYet => "The provided key is not yet a whitelisted withdraw address"@,
            MintError::MaxMintExceeded => "Max mint for this block has been exceeded"@,
            MintError::MaxRedeemExceeded => "Max redeem for this block has been exceeded"@,
            MintError::AssetNotSupported => "Asset not supported by mint vault"@,
            MintError::AssetAlreadySupported => "Asset already supported by mint vault"@,
            MintError::MaxArrayLength => "Max array length has been exceeded"@,
        }
    }

    /// A sentence that says what went wrong.
    pub fn message(&self) -> (r: String)
        ensures
            r@ == self.message_text(),
    {
        match self {
            MintError::NotAnApprovedMinter => "The provided account is not an approved minter".to_string(),
            MintError::NotAnApprovedRedeemer => "The provided account is not an approved redeemer".to_string(),
            MintError::NotManager => "The caller is not a manager".to_string(),
            MintError::NotAdmin => "The caller is not an admin".to_string(),
            MintError::NotWithdrawer => "The provided address is not a whitelisted withdraw address".to_string(),
            MintError::AlreadyMinter => "The minter is already whitelisted".to_string(),
            MintError::AlreadyRedeemer => "The redeemer is already whitelisted".to_string(),
            MintError::AlreadyWithdrawer => "The withdraw address is already whitelisted".to_string(),
            MintError::AlreadyAssetManager => "The provided key is already an asset manager".to_string(),
            MintError::AlreadyRoleManager => "The provided key is already a role manager".to_string(),
            MintError::MinterNotWhitelisted => "The minter is not whitelisted".to_string(),
            MintError::AddressNotWhitelisted => "The withdraw address is not whitelisted".to_string(),
            MintError::RedeemerNotWhitelisted => "The redeemer is not whitelisted".to_string(),
            MintError::NotManagerYet => "The provided key is not yet a manager".to_string(),
            MintError::NotWithdrawerYet => "The provided key is not yet a whitelisted withdraw address".to_string(),
            MintError::MaxMintExceeded => "Max mint for this block has been exceeded".to_string(),
            MintError::MaxRedeemExceeded => "Max redeem for this block has been exceeded".to_string(),
            MintError::AssetNotSupported => "Asset not supported by mint vault".to_string(),
            MintError::AssetAlreadySupported => "Asset already supported by mint vault".to_string(),
            MintError::MaxArrayLength => "Max array length has been exceeded".to_string(),
        }
    }
}

/// The keys that run a mint vault.
#[derive(Debug)]
pub struct VaultState {
    /// The one key that names managers and sets rates.
    pub admin: Key,
    /// The keys that may move collateral out to a withdraw address.
    pub asset_managers: Vec<Key>,
    /// The keys that may approve minters and redeemers.
    pub role_managers: Vec<Key>,
    /// The addresses that collateral may be moved out to.
    pub withdraw_addresses: Vec<Key>,
}

/// The rates of one asset.
#[derive(Clone, Copy, Debug)]
pub struct ExchangeRate {
    /// The asset the rates are for.
    pub asset: Key,
    /// Vault tokens minted per unit of collateral, scaled by `10^9`.
    pub deposit_rate: u64,
    /// Collateral paid per vault token, scaled by `10^9`.
    pub redeem_rate: u64,
}

/// What one user may do.
#[derive(Clone, Copy, Debug)]
pub struct Permissions {
    /// The user.
    pub key: Key,
    /// Whether the user may deposit collateral and mint.
    pub can_mint: bool,
    /// Whether the user may redeem vault tokens for collateral.
    pub can_redeem: bool,
}

/// `collat` units of a token with `decimals` decimals, in units of nine
/// decimals. Tokens with nine decimals or more are taken as they are.
pub open spec fn scaled_collateral(collat: int, decimals: u8) -> int {
    if decimals < VAULT_DECIMALS {
        collat * pow10((VAULT_DECIMALS - decimals) as nat)
    } else {
        collat
    }
}

/// The vault tokens minted for `collat` units of collateral:
/// the scaled collateral times `rate`, over `10^9`, rounded down.
pub open spec fn minted_for(collat: int, decimals: u8, rate: int) -> int {
    (scaled_collateral(collat, decimals) * rate) / 1_000_000_000
}

/// The collateral paid for `amt` vault tokens: `amt` times `rate`, over
/// `10^9`, rounded down, then scaled down to `decimals` decimals, rounded
/// down again.
pub open spec fn collateral_for(amt: int, decimals: u8, rate: int) -> int {
    let raw = (amt * rate) / 1_000_000_000;
    if decimals < VAULT_DECIMALS {
        raw / (pow10((VAULT_DECIMALS - decimals) as nat) as int)
    } else {
        raw
    }
}

impl VaultState {
    /// Empties the three lists.
    pub fn new(&mut self)
        ensures
            final(self).admin == old(self).admin,
            final(self).asset_managers@ == Seq::<Key>::empty(),
            final(self).role_managers@ == Seq::<Key>::empty(),
            final(self).withdraw_addresses@ == Seq::<Key>::empty(),
    {
        self.asset_managers = Vec::with_capacity(20);
        self.role_managers = Vec::with_capacity(20);
        self.withdraw_addresses = Vec::with_capacity(50);
    }
}

/// The state of a new mint vault: `admin` administers it and every list is
/// empty.
pub fn initialize_vault_state(admin: Key) -> (r: VaultState)
    ensures
        r.admin == admin,
        r.asset_managers@ == Seq::<Key>::empty(),
        r.role_managers@ == Seq::<Key>::empty(),
        r.withdraw_addresses@ == Seq::<Key>::empty(),
{
    VaultState {
        admin,
        asset_managers: Vec::with_capacity(20),
        role_managers: Vec::with_capacity(20),
        withdraw_addresses: Vec::with_capacity(50),
    }
}

/// Sets the rates of `asset`.
///
/// Fails with `NotAdmin` where `caller` is not the administrator.
pub fn update_asset(
    vault: &VaultState,
    exchange_rate: &mut ExchangeRate,
    caller: &Key,
    asset: Key,
    deposit_rate: u64,
    redeem_rate: u64,
) -> (r: Result<(), MintError>)
    ensures
        r == if vault.admin != *caller {
            Err::<(), MintError>(MintError::NotAdmin)
        } else {
            Ok::<(), MintError>(())
        },
        r is Ok ==> *final(exchange_rate) == (ExchangeRate { asset, deposit_rate, redeem_rate }),
        r is Err ==> *final(exchange_rate) == *old(exchange_rate),
{
    if vault.admin != *caller {
        return Err(MintError::NotAdmin);
    }
    exchange_rate.asset = asset;
    exchange_rate.deposit_rate = deposit_rate;
    exchange_rate.redeem_rate = redeem_rate;
    Ok(())
}

/// The vault tokens to mint for a deposit of `collat` units of a collateral
/// with `decimals` decimals.
///
/// Fails with `AssetNotSupported` where the deposit rate is zero, else with
/// `NotAnApprovedMinter` where the depositor may not mint. Both the scaled
/// collateral and the minted amount must fit 64 bits.
pub fn deposit(
    exchange_rate: &ExchangeRate,
    user_permissions: &Permissions,
    decimals: u8,
    collat: u64,
) -> (r: Result<u64, MintError>)
    requires
        scaled_collateral(collat as int, decimals) <= u64::MAX,
        minted_for(collat as int, decimals, exchange_rate.deposit_rate as int) <= u64::MAX,
    ensures
        r == if exchange_rate.deposit_rate == 0 {
            Err::<u64, MintError>(MintError::AssetNotSupported)
        } else if !user_permissions.can_mint {
            Err::<u64, MintError>(MintError::NotAnApprovedMinter)
        } else {
            Ok::<u64, MintError>(
                minted_for(collat as int, decimals, exchange_rate.deposit_rate as int) as u64,
            )
        },
{
    if exchange_rate.deposit_rate == 0 {
        return Err(MintError::AssetNotSupported);
    }
    if !user_permissions.can_mint {
        return Err(MintError::NotAnApprovedMinter);
    }
    let scaled: u128 = if decimals < VAULT_DECIMALS {
        let scale: u64 = pow10_u64(VAULT_DECIMALS - decimals);
        proof {
            lemma_pow10_fits((VAULT_DECIMALS - decimals) as nat);
            assert(collat as int * scale as int <= u128::MAX) by (nonlinear_arith)
                requires
                    0 <= collat <= 0xffff_ffff_ffff_ffffint,
                    0 <= scale <= 0xffff_ffff_ffff_ffffint,
            ;
        }
        collat as u128 * scale as u128
    } else {
        collat as u128
    };
    let rate: u128 = exchange_rate.deposit_rate as u128;
    assert(scaled as int * rate as int <= u128::MAX) by (nonlinear_arith)
        requires
            0 <= scaled <= 0xffff_ffff_ffff_ffffint,
            0 <= rate <= 0xffff_ffff_ffff_ffffint,
    ;
    let minted: u128 = scaled * rate / DECIMALS_SCALAR;
    Ok(minted as u64)
}

/// The collateral, in units of `decimals` decimals, to pay for redeeming
/// `amt` vault tokens.
///
/// Fails with `AssetNotSupported` where the redeem rate is zero, else with
/// `NotAnApprovedRedeemer` where the redeemer may not redeem. The amount at
/// nine decimals must fit 64 bits.
pub fn redeem(
    exchange_rate: &ExchangeRate,
    user_permissions: &Permissions,
    decimals: u8,
    amt: u64,
) -> (r: Result<u64, MintError>)
    requires
        collateral_for(amt as int, VAULT_DECIMALS, exchange_rate.redeem_rate as int) <= u64::MAX,
    ensures
        r == if exchange_rate.redeem_rate == 0 {
            Err::<u64, MintError>(MintError::AssetNotSupported)
        } else if !user_permissions.can_redeem {
            Err::<u64, MintError>(MintError::NotAnApprovedRedeemer)
        } else {
            Ok::<u64, MintError>(
                collateral_for(amt as int, decimals, exchange_rate.redeem_rate as int) as u64,
            )
        },
{
    if exchange_rate.redeem_rate == 0 {
        return Err(MintError::AssetNotSupported);
    }
    if !user_permissions.can_redeem {
        return Err(MintError::NotAnApprovedRedeemer);
    }
    let rate: u128 = exchange_rate.redeem_rate as u128;
    assert(amt as int * rate as int <= u128::MAX) by (nonlinear_arith)
        requires
            0 <= amt <= 0xffff_ffff_ffff_ffffint,
            0 <= rate <= 0xffff_ffff_ffff_ffffint,
    ;
    let raw: u128 = amt as u128 * rate / DECIMALS_SCALAR;
    if decimals < VAULT_DECIMALS {
        let scale: u64 = pow10_u64(VAULT_DECIMALS - decimals);
        proof {
            lemma_pow10_positive((VAULT_DECIMALS - decimals) as nat);
            vstd::arithmetic::div_mod::lemma_div_is_ordered_by_denominator(
                raw as int,
                1,
                scale as int,
            );
        }
        Ok((raw / scale as u128) as u64)
    } else {
        Ok(raw as u64)
    }
}

/// Whether `caller` may move collateral out to `destination`.
///
/// Fails with `NotManager` where `caller` is no asset manager, else with
/// `NotWithdrawer` where `destination` is not a listed withdraw address.
pub fn withdraw(vault: &VaultState, caller: &Key, destination: &Key) -> (r: Result<(), MintError>)
    ensures
        r == if !vault.asset_managers@.contains(*caller) {
            Err::<(), MintError>(MintError::NotManager)
        } else if !vault.withdraw_addresses@.contains(*destination) {
            Err::<(), MintError>(MintError::NotWithdrawer)
        } else {
            Ok::<(), MintError>(())
        },
{
    if find_key(&vault.asset_managers, caller).is_none() {
        return Err(MintError::NotManager);
    }
    if find_key(&vault.withdraw_addresses, destination).is_none() {
        return Err(MintError::NotWithdrawer);
    }
    Ok(())
}

/// Approves `user` to mint.
///
/// Fails with `NotManager` where `caller` is no role manager.
pub fn whitelist_minter(
    vault: &VaultState,
    user_permissions: &mut Permissions,
    caller: &Key,
    user: Key,
) -> (r: Result<(), MintError>)
    ensures
        r == if !vault.role_managers@.contains(*caller) {
            Err::<(), MintError>(MintError::NotManager)
        } else {
            Ok::<(), MintError>(())
        },
        r is Ok ==> *final(user_permissions) == (Permissions {
            key: user,
            can_mint: true,
            ..*old(user_permissions)
        }),
        r is Err ==> *final(user_permissions) == *old(user_permissions),
{
    if find_key(&vault.role_managers, caller).is_none() {
        return Err(MintError::NotManager);
    }
    user_permissions.key = user;
    user_permissions.can_mint = true;
    Ok(())
}

/// Withdraws the approval to mint from the user of the entry.
///
/// Fails with `NotManager` where `caller` is no role manager.
pub fn remove_minter(vault: &VaultState, user_permissions: &mut Permissions, caller: &Key) -> (r:
    Result<(), MintError>)
    ensures
        r == if !vault.role_managers@.contains(*caller) {
            Err::<(), MintError>(MintError::NotManager)
        } else {
            Ok::<(), MintError>(())
        },
        r is Ok ==> *final(user_permissions) == (Permissions {
            can_mint: false,
            ..*old(user_permissions)
        }),
        r is Err ==> *final(user_permissions) == *old(user_permissions),
{
    if find_key(&vault.role_managers, caller).is_none() {
        return Err(MintError::NotManager);
    }
    user_permissions.can_mint = false;
    Ok(())
}

/// Approves `user` to redeem.
///
/// Fails with `NotManager` where `caller` is no role manager.
pub fn whitelist_redeemer(
    vault: &VaultState,
    user_permissions: &mut Permissions,
    caller: &Key,
    user: Key,
) -> (r: Result<(), MintError>)
    ensures
        r == if !vault.role_managers@.contains(*caller) {
            Err::<(), MintError>(MintError::NotManager)
        } else {
            Ok::<(), MintError>(())
        },
        r is Ok ==> *final(user_permissions) == (Permissions {
            key: user,
            can_redeem: true,
            ..*old(user_permissions)
        }),
        r is Err ==> *final(user_permissions) == *old(user_permissions),
{
    if find_key(&vault.role_managers, caller).is_none() {
        return Err(MintError::NotManager);
    }
    user_permissions.key = user;
    user_permissions.can_redeem = true;
    Ok(())
}

/// Withdraws the approval to redeem from the user of the entry.
///
/// Fails with `NotManager` where `caller` is no role manager.
pub fn remove_redeemer(vault: &VaultState, user_permissions: &mut Permissions, caller: &Key) -> (r:
    Result<(), MintError>)
    ensures
        r == if !vault.role_managers@.contains(*caller) {
            Err::<(), MintError>(MintError::NotManager)
        } else {
            Ok::<(), MintError>(())
        },
        r is Ok ==> *final(user_permissions) == (Permissions {
            can_redeem: false,
            ..*old(user_permissions)
        }),
        r is Err ==> *final(user_permissions) == *old(user_permissions),
{
    if find_key(&vault.role_managers, caller).is_none() {
        return Err(MintError::NotManager);
    }
    user_permissions.can_redeem = false;
    Ok(())
}

/// What adding `key` to `keys` returns, with `limit` the length up to which
/// the list still takes a key and `already` the error for a key it holds.
pub open spec fn add_spec(
    is_admin: bool,
    keys: Seq<Key>,
    key: Key,
    limit: usize,
    already: MintError,
) -> Result<(), MintError> {
    if !is_admin {
        Err(MintError::NotAdmin)
    } else if keys.len() > limit {
        Err(MintError::MaxArrayLength)
    } else if keys.contains(key) {
        Err(already)
    } else {
        Ok(())
    }
}

/// What removing `key` from `keys` returns, with `missing` the error for a
/// key that the list does not hold.
pub open spec fn remove_spec(is_admin: bool, keys: Seq<Key>, key: Key, missing: MintError) -> Result<
    (),
    MintError,
> {
    if !is_admin {
        Err(MintError::NotAdmin)
    } else if !keys.contains(key) {
        Err(missing)
    } else {
        Ok(())
    }
}

/// Names `manager` an asset manager, behind those named before.
///
/// Fails with `NotAdmin` where `caller` is not the administrator, else with
/// `MaxArrayLength` where more than twenty are named, else with
/// `AlreadyAssetManager`.
pub fn add_asset_manager(vault: &mut VaultState, caller: &Key, manager: Key) -> (r: Result<
    (),
    MintError,
>)
    ensures
        r == add_spec(
            old(vault).admin == *caller,
            old(vault).asset_managers@,
            manager,
            MAX_MANAGER_ADDRESSES,
            MintError::AlreadyAssetManager,
        ),
        r is Ok ==> final(vault).asset_managers@ == old(vault).asset_managers@.push(manager),
        r is Err ==> *final(vault) == *old(vault),
        final(vault).admin == old(vault).admin,
        final(vault).role_managers == old(vault).role_managers,
        final(vault).withdraw_addresses == old(vault).withdraw_addresses,
{
    if vault.admin != *caller {
        return Err(MintError::NotAdmin);
    }
    if vault.asset_managers.len() > MAX_MANAGER_ADDRESSES {
        return Err(MintError::MaxArrayLength);
    }
    if insert_key(&mut vault.asset_managers, manager) {
        Ok(())
    } else {
        Err(MintError::AlreadyAssetManager)
    }
}

/// Names `manager` a role manager, behind those named before.
///
/// Fails with `NotAdmin` where `caller` is not the administrator, else with
/// `MaxArrayLength` where more than twenty are named, else with
/// `AlreadyRoleManager`.
pub fn add_role_manager(vault: &mut VaultState, caller: &Key, manager: Key) -> (r: Result<
    (),
    MintError,
>)
    ensures
        r == add_spec(
            old(vault).admin == *caller,
            old(vault).role_managers@,
            manager,
            MAX_MANAGER_ADDRESSES,
            MintError::AlreadyRoleManager,
        ),
        r is Ok ==> final(vault).role_managers@ == old(vault).role_managers@.push(manager),
        r is Err ==> *final(vault) == *old(vault),
        final(vault).admin == old(vault).admin,
        final(vault).asset_managers == old(vault).asset_managers,
        final(vault).withdraw_addresses == old(vault).withdraw_addresses,
{
    if vault.admin != *caller {
        return Err(MintError::NotAdmin);
    }
    if vault.role_managers.len() > MAX_MANAGER_ADDRESSES {
        return Err(MintError::MaxArrayLength);
    }
    if insert_key(&mut vault.role_managers, manager) {
        Ok(())
    } else {
        Err(MintError::AlreadyRoleManager)
    }
}

/// Takes `manager` off the asset managers: its first occurrence is replaced
/// by the last of them, and the list is shortened by one.
///
/// Fails with `NotAdmin` where `caller` is not the administrator, else with
/// `NotManagerYet`.
pub fn remove_asset_manager(vault: &mut VaultState, caller: &Key, manager: Key) -> (r: Result<
    (),
    MintError,
>)
    ensures
        r == remove_spec(
            old(vault).admin == *caller,
            old(vault).asset_managers@,
            manager,
            MintError::NotManagerYet,
        ),
        r is Ok ==> final(vault).asset_managers@ == without(old(vault).asset_managers@, manager),
        r is Err ==> *final(vault) == *old(vault),
        final(vault).admin == old(vault).admin,
        final(vault).role_managers == old(vault).role_managers,
        final(vault).withdraw_addresses == old(vault).withdraw_addresses,
{
    if vault.admin != *caller {
        return Err(MintError::NotAdmin);
    }
    if remove_key(&mut vault.asset_managers, &manager) {
        Ok(())
    } else {
        Err(MintError::NotManagerYet)
    }
}

/// Takes `manager` off the role managers: its first occurrence is replaced
/// by the last of them, and the list is shortened by one.
///
/// Fails with `NotAdmin` where `caller` is not the administrator, else with
/// `NotManagerYet`.
pub fn remove_role_manager(vault: &mut VaultState, caller: &Key, manager: Key) -> (r: Result<
    (),
    MintError,
>)
    ensures
        r == remove_spec(
            old(vault).admin == *caller,
            old(vault).role_managers@,
            manager,
            MintError::NotManagerYet,
        ),
        r is Ok ==> final(vault).role_managers@ == without(old(vault).role_managers@, manager),
        r is Err ==> *final(vault) == *old(vault),
        final(vault).admin == old(vault).admin,
        final(vault).asset_managers == old(vault).asset_managers,
        final(vault).withdraw_addresses == old(vault).withdraw_addresses,
{
    if vault.admin != *caller {
        return Err(MintError::NotAdmin);
    }
    if remove_key(&mut vault.role_managers, &manager) {
        Ok(())
    } else {
        Err(MintError::NotManagerYet)
    }
}

/// Lists `address` as a withdraw address, behind those listed before.
///
/// Fails with `NotAdmin` where `caller` is not the administrator, else with
/// `MaxArrayLength` where more than fifty are listed, else with
/// `AlreadyWithdrawer`.
pub fn add_withdraw_address(vault: &mut VaultState, caller: &Key, address: Key) -> (r: Result<
    (),
    MintError,
>)
    ensures
        r == add_spec(
            old(vault).admin == *caller,
            old(vault).withdraw_addresses@,
            address,
            MAX_WITHDRAW_ADDRESSES,
            MintError::AlreadyWithdrawer,
        ),
        r is Ok ==> final(vault).withdraw_addresses@ == old(vault).withdraw_addresses@.push(
            address,
        ),
        r is Err ==> *final(vault) == *old(vault),
        final(vault).admin == old(vault).admin,
        final(vault).asset_managers == old(vault).asset_managers,
        final(vault).role_managers == old(vault).role_managers,
{
    if vault.admin != *caller {
        return Err(MintError::NotAdmin);
    }
    if vault.withdraw_addresses.len() > MAX_WITHDRAW_ADDRESSES {
        return Err(MintError::MaxArrayLength);
    }
    if insert_key(&mut vault.withdraw_addresses, address) {
        Ok(())
    } else {
        Err(MintError::AlreadyWithdrawer)
    }
}

/// Takes `address` off the withdraw addresses: its first occurrence is
/// replaced by the last of them, and the list is shortened by one.
///
/// Fails with `NotAdmin` where `caller` is not the administrator, else with
/// `NotWithdrawerYet`.
pub fn remove_withdraw_address(vault: &mut VaultState, caller: &Key, address: Key) -> (r: Result<
    (),
    MintError,
>)
    ensures
        r == remove_spec(
            old(vault).admin == *caller,
            old(vault).withdraw_addresses@,
            address,
            MintError::NotWithdrawerYet,
        ),
        r is Ok ==> final(vault).withdraw_addresses@ == without(
            old(vault).withdraw_addresses@,
            address,
        ),
        r is Err ==> *final(vault) == *old(vault),
        final(vault).admin == old(vault).admin,
        final(vault).asset_managers == old(vault).asset_managers,
        final(vault).role_managers == old(vault).role_managers,
{
    if vault.admin != *caller {
        return Err(MintError::NotAdmin);
    }
    if remove_key(&mut vault.withdraw_addresses, &address) {
        Ok(())
    } else {
        Err(MintError::NotWithdrawerYet)
    }
}

/// Hands the administration of the mint vault to `new_admin`.
///
/// Fails with `NotAdmin` where `caller` is not the administrator.
pub fn transfer_admin(vault: &mut VaultState, caller: &Key, new_admin: Key) -> (r: Result<
    (),
    MintError,
>)
    ensures
        r == if old(vault).admin != *caller {
            Err::<(), MintError>(MintError::NotAdmin)
        } else {
            Ok::<(), MintError>(())
        },
        r is Ok ==> final(vault).admin == new_admin,
        r is Err ==> *final(vault) == *old(vault),
        final(vault).asset_managers == old(vault).asset_managers,
        final(vault).role_managers == old(vault).role_managers,
        final(vault).withdraw_addresses == old(vault).withdraw_addresses,
{
    if vault.admin != *caller {
        return Err(MintError::NotAdmin);
    }
    vault.admin = new_admin;
    Ok(())
}

} // verus!
