//! Linear release of a reward over a vesting window.
//!
//! A reward paid in at time `t` is locked in full at `t` and released in
//! proportion to the time elapsed, so that nothing of it is locked from
//! `t + vesting_period` on.

use vstd::prelude::*;
use vstd::arithmetic::div_mod::lemma_div_is_ordered;
use vstd::arithmetic::div_mod::lemma_div_multiples_vanish;
use crate::errors::StakeError;

verus! {

/// The part of `vesting_amount` that is still locked at `now`:
/// `(vesting_period - elapsed) * vesting_amount / vesting_period` rounded
/// down while the window runs, and zero from its end on.
pub open spec fn unvested_amount(
    now: int,
    last_distribution_time: int,
    vesting_period: int,
    vesting_amount: int,
) -> int {
    let elapsed = now - last_distribution_time;
    if elapsed >= vesting_period {
        0
    } else {
        ((vesting_period - elapsed) * vesting_amount) / vesting_period
    }
}

/// What `unvested` returns.
pub open spec fn unvested_spec(
    now: u32,
    last_distribution_time: u32,
    vesting_period: u32,
    vesting_amount: u64,
) -> Result<u64, StakeError> {
    if now < last_distribution_time {
        Err(StakeError::Underflow)
    } else {
        Ok(
            unvested_amount(
                now as int,
                last_distribution_time as int,
                vesting_period as int,
                vesting_amount as int,
            ) as u64,
        )
    }
}

/// From the start of the window on, the locked part lies between zero and
/// the whole reward.
pub proof fn lemma_unvested_bounded(
    now: int,
    last_distribution_time: int,
    vesting_period: int,
    vesting_amount: int,
)
    requires
        vesting_period > 0,
        vesting_amount >= 0,
        now >= last_distribution_time,
    ensures
        0 <= unvested_amount(now, last_distribution_time, vesting_period, vesting_amount)
            <= vesting_amount,
{
    let elapsed = now - last_distribution_time;
    if elapsed < vesting_period {
        let left = vesting_period - elapsed;
        assert(0 <= left * vesting_amount <= vesting_period * vesting_amount) by (nonlinear_arith)
            requires
                0 < left <= vesting_period,
                vesting_amount >= 0,
        ;
        lemma_div_is_ordered(0, left * vesting_amount, vesting_period);
        lemma_div_is_ordered(left * vesting_amount, vesting_period * vesting_amount, vesting_period);
        lemma_div_multiples_vanish(vesting_amount, vesting_period);
    }
}

/// The locked part of a reward at `now`.
///
/// Fails with `Underflow` where `now` lies before the start of the window.
pub fn unvested(
    now: u32,
    last_distribution_time: u32,
    vesting_period: u32,
    vesting_amount: u64,
) -> (r: Result<u64, StakeError>)
    requires
        vesting_period > 0,
    ensures
        r == unvested_spec(now, last_distribution_time, vesting_period, vesting_amount),
        r matches Ok(locked) ==> locked <= vesting_amount,
{
    if now < last_distribution_time {
        return Err(StakeError::Underflow);
    }
    let elapsed: u32 = now - last_distribution_time;
    if elapsed >= vesting_period {
        return Ok(0);
    }
    let left: u128 = (vesting_period - elapsed) as u128;
    proof {
        lemma_unvested_bounded(
            now as int,
            last_distribution_time as int,
            vesting_period as int,
            vesting_amount as int,
        );
        assert(left as int * vesting_amount as int <= u128::MAX) by (nonlinear_arith)
            requires
                0 <= left <= 0xffff_ffffint,
                0 <= vesting_amount <= 0xffff_ffff_ffff_ffffint,
        ;
    }
    let locked: u128 = (left * (vesting_amount as u128)) / (vesting_period as u128);
    Ok(locked as u64)
}

/// The locked part of a reward never grows as time passes, and it is zero
/// from the end of the vesting window on.
pub proof fn lemma_unvested_monotonic(
    earlier: u32,
    later: u32,
    last_distribution_time: u32,
    vesting_period: u32,
    vesting_amount: u64,
)
    requires
        vesting_period > 0,
        earlier <= later,
    ensures
        unvested_amount(
            later as int,
            last_distribution_time as int,
            vesting_period as int,
            vesting_amount as int,
        ) <= unvested_amount(
            earlier as int,
            last_distribution_time as int,
            vesting_period as int,
            vesting_amount as int,
        ),
        later >= last_distribution_time + vesting_period ==> unvested_amount(
            later as int,
            last_distribution_time as int,
            vesting_period as int,
            vesting_amount as int,
        ) == 0,
{
    let period = vesting_period as int;
    let amount = vesting_amount as int;
    let e1 = earlier as int - last_distribution_time as int;
    let e2 = later as int - last_distribution_time as int;
    if e1 < period {
        assert(0 <= (period - e1) * amount) by (nonlinear_arith)
            requires
                period - e1 > 0,
                amount >= 0,
        ;
        lemma_div_is_ordered(0, (period - e1) * amount, period);
        if e2 < period {
            assert((period - e2) * amount <= (period - e1) * amount) by (nonlinear_arith)
                requires
                    period - e2 <= period - e1,
                    amount >= 0,
            ;
            lemma_div_is_ordered((period - e2) * amount, (period - e1) * amount, period);
        }
    }
}

} // verus!
