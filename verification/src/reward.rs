//! Simple (non-compounding) interest on a staked principal.

use vstd::prelude::*;
use vstd::arithmetic::div_mod::lemma_div_is_ordered;

verus! {

/// Seconds in a year (365 days) times the basis-point scale of the rate.
pub const REWARD_DIVISOR: u128 = 315_360_000_000;

/// Seconds between the checkpoint and now; zero when the clock reads earlier
/// than the checkpoint.
pub open spec fn elapsed(last_ts: u64, now_ts: u64) -> nat {
    if now_ts >= last_ts {
        (now_ts - last_ts) as nat
    } else {
        0
    }
}

/// The interest earned, before it is fitted into 64 bits:
/// `floor(principal * apr * elapsed / (365 * 24 * 3600 * 10000))`.
pub open spec fn accrued(principal: nat, apr: nat, elapsed: nat) -> nat {
    (principal * apr * elapsed) / 315_360_000_000
}

/// The reward on `principal` staked since `last_ts`, as seen at `now_ts`, at
/// the annual rate `apr`: the accrued interest, clamped to what 64 bits hold.
pub open spec fn reward(principal: u64, last_ts: u64, now_ts: u64, apr: u64) -> u64 {
    let earned = accrued(principal as nat, apr as nat, elapsed(last_ts, now_ts));
    if earned > u64::MAX {
        u64::MAX
    } else {
        earned as u64
    }
}

proof fn lemma_product_fits(principal: u64, apr: u64)
    ensures
        principal * apr <= u128::MAX,
{
    assert(principal * apr <= 0xffff_ffff_ffff_ffff * 0xffff_ffff_ffff_ffff) by (nonlinear_arith)
        requires
            0 <= principal <= 0xffff_ffff_ffff_ffff,
            0 <= apr <= 0xffff_ffff_ffff_ffff,
    ;
}

/// Computes [`reward`] in 128-bit arithmetic. A product too wide for 128 bits
/// is clamped, and so is a quotient too wide for 64 bits.
pub fn calculate_reward(
    staked_amount: u64,
    last_timestamp: u64,
    current_timestamp: u64,
    apr: u64,
) -> (r: u64)
    ensures
        r == reward(staked_amount, last_timestamp, current_timestamp, apr),
{
    if staked_amount == 0 {
        assert(0nat * (apr as nat) * elapsed(last_timestamp, current_timestamp) == 0)
            by (nonlinear_arith);
        return 0;
    }
    let time_staked: u64 = current_timestamp.saturating_sub(last_timestamp);
    assert(time_staked as nat == elapsed(last_timestamp, current_timestamp));
    proof {
        lemma_product_fits(staked_amount, apr);
    }
    let base: u128 = (staked_amount as u128) * (apr as u128);
    let wide: u128 = match base.checked_mul(time_staked as u128) {
        Some(product) => product,
        None => {
            proof {
                let exact: int = base * time_staked;
                lemma_div_is_ordered(u128::MAX as int, exact, 315_360_000_000);
            }
            u128::MAX
        },
    };
    let quotient: u128 = wide / REWARD_DIVISOR;
    if quotient > u64::MAX as u128 {
        u64::MAX
    } else {
        quotient as u64
    }
}

/// Nothing staked earns nothing.
pub proof fn lemma_reward_of_nothing(last_ts: u64, now_ts: u64, apr: u64)
    ensures
        reward(0, last_ts, now_ts, apr) == 0,
{
    assert(0nat * (apr as nat) * elapsed(last_ts, now_ts) == 0) by (nonlinear_arith);
}

/// No time elapsed earns nothing, and neither does a clock that reads earlier
/// than the checkpoint.
pub proof fn lemma_reward_without_time(principal: u64, last_ts: u64, now_ts: u64, apr: u64)
    requires
        now_ts <= last_ts,
    ensures
        reward(principal, last_ts, now_ts, apr) == 0,
{
    assert((principal as nat) * (apr as nat) * 0nat == 0) by (nonlinear_arith);
}

/// For a fixed principal and rate the reward never shrinks as time passes.
pub proof fn lemma_reward_monotonic(principal: u64, last_ts: u64, now_a: u64, now_b: u64, apr: u64)
    requires
        now_a <= now_b,
    ensures
        reward(principal, last_ts, now_a, apr) <= reward(principal, last_ts, now_b, apr),
{
    let ea = elapsed(last_ts, now_a);
    let eb = elapsed(last_ts, now_b);
    let base = (principal as nat) * (apr as nat);
    assert(base * ea <= base * eb) by (nonlinear_arith)
        requires
            ea <= eb,
            base >= 0,
    ;
    lemma_div_is_ordered((base * ea) as int, (base * eb) as int, 315_360_000_000);
}

} // verus!
