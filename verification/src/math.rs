//! Conversion between assets and shares in integers.
//!
//! Both directions work on a virtual pool: `10^offset` shares are added to
//! the supply and one asset to the pool, and every quotient is rounded down.
//! The bias is kept by the vault, which makes it unprofitable to skew the
//! price of a share by donating to a nearly empty vault.

use vstd::prelude::*;
use vstd::arithmetic::div_mod::lemma_fundamental_div_mod;
use vstd::arithmetic::div_mod::lemma_fundamental_div_mod_converse;
use vstd::arithmetic::div_mod::lemma_div_is_ordered;
use vstd::arithmetic::div_mod::lemma_div_multiples_vanish;
use crate::errors::StakeError;

verus! {

/// The largest decimal padding of the virtual share supply.
pub const MAX_OFFSET: u8 = 8;

/// The largest exponent whose power of ten fits 64 bits.
pub const MAX_EXPONENT: u8 = 19;

/// Ten to the power `e`.
pub open spec fn pow10(e: nat) -> nat
    decreases e,
{
    if e == 0 {
        1
    } else {
        10 * pow10((e - 1) as nat)
    }
}

/// A power of ten is positive.
pub proof fn lemma_pow10_positive(e: nat)
    ensures
        pow10(e) >= 1,
    decreases e,
{
    if e > 0 {
        lemma_pow10_positive((e - 1) as nat);
    }
}

/// Within the accepted paddings a power of ten is at most `10^8`.
pub proof fn lemma_pow10_bounded(e: nat)
    requires
        e <= MAX_OFFSET,
    ensures
        pow10(e) <= 100_000_000,
{
    reveal_with_fuel(pow10, 9);
}

/// Up to the exponent nineteen a power of ten fits 64 bits.
pub proof fn lemma_pow10_fits(e: nat)
    requires
        e <= MAX_EXPONENT,
    ensures
        pow10(e) <= 10_000_000_000_000_000_000,
{
    reveal_with_fuel(pow10, 20);
}

/// Computes `10^e`.
pub fn pow10_u64(e: u8) -> (r: u64)
    requires
        e <= MAX_EXPONENT,
    ensures
        r == pow10(e as nat),
{
    let mut r: u64 = 1;
    let mut i: u8 = 0;
    while i < e
        invariant
            i <= e <= MAX_EXPONENT,
            r == pow10(i as nat),
        decreases e - i,
    {
        proof {
            lemma_pow10_fits((i + 1) as nat);
        }
        r = r * 10;
        i = i + 1;
    }
    r
}

/// The shares that `assets` buy, before any bound is applied: the deposit
/// itself while nothing is vested in the vault, else
/// `assets * (total_supply + 10^offset) / (effective_assets + 1)` rounded down.
pub open spec fn shares_quotient(
    assets: int,
    total_supply: int,
    effective_assets: int,
    offset: nat,
) -> int {
    if effective_assets == 0 {
        assets
    } else {
        (assets * (total_supply + pow10(offset))) / (effective_assets + 1)
    }
}

/// The assets that `shares` redeem, before any bound is applied: the shares
/// themselves while no share exists, else
/// `shares * (effective_assets + 1) / (total_supply + 10^offset)` rounded down.
pub open spec fn assets_quotient(
    shares: int,
    total_supply: int,
    effective_assets: int,
    offset: nat,
) -> int {
    if total_supply == 0 {
        shares
    } else {
        (shares * (effective_assets + 1)) / (total_supply + pow10(offset))
    }
}

/// What `shares_for_assets` returns.
pub open spec fn shares_for_assets_spec(
    assets: u64,
    total_supply: u64,
    effective_assets: u64,
    offset: u8,
) -> Result<u64, StakeError> {
    let q = shares_quotient(assets as int, total_supply as int, effective_assets as int, offset as nat);
    if q > u64::MAX {
        Err(StakeError::Overflow)
    } else if q == 0 && assets != 0 {
        Err(StakeError::ZeroShares)
    } else {
        Ok(q as u64)
    }
}

/// What `assets_for_shares` returns.
pub open spec fn assets_for_shares_spec(
    shares: u64,
    total_supply: u64,
    effective_assets: u64,
    offset: u8,
) -> Result<u64, StakeError> {
    let q = assets_quotient(shares as int, total_supply as int, effective_assets as int, offset as nat);
    if q > u64::MAX {
        Err(StakeError::Overflow)
    } else {
        Ok(q as u64)
    }
}

proof fn lemma_quotient_at_least(n: int, d: int, k: int)
    requires
        d > 0,
        n >= d * k,
    ensures
        n / d >= k,
{
    lemma_div_is_ordered(d * k, n, d);
    lemma_div_multiples_vanish(k, d);
}

proof fn lemma_quotient_at_most(n: int, d: int, k: int)
    requires
        d > 0,
        n <= d * k,
    ensures
        n / d <= k,
{
    lemma_div_is_ordered(n, d * k, d);
    lemma_div_multiples_vanish(k, d);
}

/// Shares to mint for a deposit of `assets`, given the share supply and the
/// vested assets of the vault.
///
/// Fails with `Overflow` where the quotient does not fit 64 bits and with
/// `ZeroShares` where a deposit that is not zero would buy no share.
pub fn shares_for_assets(assets: u64, total_supply: u64, effective_assets: u64, offset: u8) -> (r:
    Result<u64, StakeError>)
    requires
        offset <= MAX_OFFSET,
    ensures
        r == shares_for_assets_spec(assets, total_supply, effective_assets, offset),
{
    if effective_assets == 0 {
        return Ok(assets);
    }
    proof {
        lemma_pow10_bounded(offset as nat);
    }
    let virtual_supply: u128 = total_supply as u128 + pow10_u64(offset) as u128;
    let pool: u128 = effective_assets as u128 + 1;
    match (assets as u128).checked_mul(virtual_supply) {
        None => {
            proof {
                let n = assets as int * virtual_supply as int;
                assert((pool as int) * 0x1_0000_0000_0000_0000int <= n) by (nonlinear_arith)
                    requires
                        n >= 0x1_0000_0000_0000_0000_0000_0000_0000_0000int,
                        0 < pool <= 0x1_0000_0000_0000_0000int,
                ;
                lemma_quotient_at_least(n, pool as int, 0x1_0000_0000_0000_0000int);
            }
            Err(StakeError::Overflow)
        },
        Some(product) => {
            let q: u128 = product / pool;
            if q > u64::MAX as u128 {
                Err(StakeError::Overflow)
            } else if q == 0 && assets != 0 {
                Err(StakeError::ZeroShares)
            } else {
                Ok(q as u64)
            }
        },
    }
}

/// Assets paid out for burning `shares`, given the share supply and the
/// vested assets of the vault.
///
/// Fails with `Overflow` where the quotient does not fit 64 bits.
pub fn assets_for_shares(shares: u64, total_supply: u64, effective_assets: u64, offset: u8) -> (r:
    Result<u64, StakeError>)
    requires
        offset <= MAX_OFFSET,
    ensures
        r == assets_for_shares_spec(shares, total_supply, effective_assets, offset),
{
    if total_supply == 0 {
        return Ok(shares);
    }
    proof {
        lemma_pow10_bounded(offset as nat);
    }
    let virtual_supply: u128 = total_supply as u128 + pow10_u64(offset) as u128;
    let pool: u128 = effective_assets as u128 + 1;
    assert(shares as int * pool as int <= u128::MAX) by (nonlinear_arith)
        requires
            0 <= shares <= 0xffff_ffff_ffff_ffffint,
            0 <= pool <= 0x1_0000_0000_0000_0000int,
    ;
    let product: u128 = shares as u128 * pool;
    let q: u128 = product / virtual_supply;
    if q > u64::MAX as u128 {
        Err(StakeError::Overflow)
    } else {
        Ok(q as u64)
    }
}

/// Burning no more shares than exist never pays out more than is vested in
/// the vault.
pub proof fn lemma_redemption_within_pool(
    shares: u64,
    total_supply: u64,
    effective_assets: u64,
    offset: u8,
)
    requires
        shares <= total_supply,
    ensures
        assets_for_shares_spec(shares, total_supply, effective_assets, offset) matches Ok(assets)
            && assets <= effective_assets,
{
    lemma_pow10_positive(offset as nat);
    if total_supply > 0 {
        let supply = total_supply as int + pow10(offset as nat);
        let pool = effective_assets as int + 1;
        assert(0 <= shares as int * pool <= supply * effective_assets as int + supply - 1)
            by (nonlinear_arith)
            requires
                0 <= shares < supply,
                pool == effective_assets as int + 1,
                effective_assets >= 0,
        ;
        lemma_div_is_ordered(0, shares as int * pool, supply);
        lemma_div_is_ordered(
            shares as int * pool,
            supply * effective_assets as int + supply - 1,
            supply,
        );
        lemma_fundamental_div_mod_converse(
            supply * effective_assets as int + supply - 1,
            supply,
            effective_assets as int,
            supply - 1,
        );
    }
}

/// Converting a deposit into shares and those shares back never yields more
/// than was deposited: every rounding favours the vault.
///
/// The one exception lies outside the law. While no share exists a share
/// redeems for exactly one asset, whatever the vault holds; over a vault that
/// already holds vested assets the padding of the virtual supply can then
/// mint more shares than assets were deposited. Those inputs are excluded.
pub proof fn lemma_round_trip_bound(
    assets: u64,
    total_supply: u64,
    effective_assets: u64,
    offset: u8,
    shares: u64,
)
    requires
        shares_for_assets_spec(assets, total_supply, effective_assets, offset) == Ok::<
            u64,
            StakeError,
        >(shares),
        total_supply > 0 || effective_assets == 0 || shares <= assets,
    ensures
        assets_for_shares_spec(shares, total_supply, effective_assets, offset) matches Ok(back)
            && back <= assets,
{
    lemma_pow10_positive(offset as nat);
    let supply = total_supply as int + pow10(offset as nat);
    let pool = effective_assets as int + 1;
    if total_supply > 0 {
        if effective_assets == 0 {
            assert(shares == assets);
            assert(shares as int * pool == shares as int) by (nonlinear_arith)
                requires
                    pool == 1,
            ;
            assert(shares as int <= supply * assets as int) by (nonlinear_arith)
                requires
                    shares == assets,
                    supply >= 1,
            ;
            lemma_quotient_at_most(shares as int * pool, supply, assets as int);
        } else {
            let n = assets as int * supply;
            assert(n == supply * assets as int) by (nonlinear_arith)
                requires
                    n == assets as int * supply,
            ;
            lemma_fundamental_div_mod(n, pool);
            assert(shares as int == n / pool);
            assert(shares as int * pool <= n) by (nonlinear_arith)
                requires
                    n == pool * (n / pool) + n % pool,
                    0 <= n % pool,
                    shares as int == n / pool,
            ;
            lemma_quotient_at_most(shares as int * pool, supply, assets as int);
        }
    }
}

} // verus!
