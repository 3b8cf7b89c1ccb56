//! The share of the rewards that a withdrawing depositor is paid.

use crate::error::ErrorCode;
use vstd::prelude::*;

verus! {

/// The part of `total_rewards` that falls to a depositor holding `staked` of
/// the `total_staked` principal, rounded down.
pub open spec fn reward_share_of(total_rewards: int, staked: int, total_staked: int) -> int
    recommends
        total_staked > 0,
{
    (total_rewards * staked) / total_staked
}

/// Computes the reward share with a 128-bit product, so that nothing is lost
/// before the division. Fails where the pool holds no stake or where the share
/// does not fit in 64 bits.
pub fn reward_share(total_rewards: u64, staked: u64, total_staked: u64) -> (share: Result<u64, ErrorCode>)
    ensures
        match share {
            Ok(value) => total_staked > 0 && value == reward_share_of(
                total_rewards as int,
                staked as int,
                total_staked as int,
            ),
            Err(error) => error == ErrorCode::ArithmeticOverflow && (total_staked == 0
                || reward_share_of(total_rewards as int, staked as int, total_staked as int)
                > u64::MAX),
        },
{
    if total_staked == 0 {
        return Err(ErrorCode::ArithmeticOverflow);
    }
    assert(total_rewards * staked <= u64::MAX * u64::MAX) by (nonlinear_arith)
        requires
            0 <= total_rewards <= u64::MAX,
            0 <= staked <= u64::MAX,
    ;
    let product: u128 = (total_rewards as u128) * (staked as u128);
    let wide: u128 = product / (total_staked as u128);
    if wide > u64::MAX as u128 {
        Err(ErrorCode::ArithmeticOverflow)
    } else {
        Ok(wide as u64)
    }
}

/// The pool never pays a depositor more rewards than it holds: the share of a
/// depositor whose stake is part of the total lies between zero and the total
/// rewards.
pub proof fn lemma_share_within_rewards(total_rewards: int, staked: int, total_staked: int)
    requires
        0 <= total_rewards,
        0 <= staked <= total_staked,
        0 < total_staked,
    ensures
        0 <= reward_share_of(total_rewards, staked, total_staked) <= total_rewards,
{
    assert(0 <= (total_rewards * staked) / total_staked <= total_rewards) by (nonlinear_arith)
        requires
            0 <= total_rewards,
            0 <= staked <= total_staked,
            0 < total_staked,
    ;
}

/// A depositor who holds the whole stake is owed all the rewards.
pub proof fn lemma_share_of_whole_stake(total_rewards: int, total_staked: int)
    requires
        0 < total_staked,
    ensures
        reward_share_of(total_rewards, total_staked, total_staked) == total_rewards,
{
    assert((total_rewards * total_staked) / total_staked == total_rewards) by (nonlinear_arith)
        requires
            0 < total_staked,
    ;
}

/// A larger stake is never owed a smaller share.
pub proof fn lemma_share_grows_with_stake(total_rewards: int, smaller: int, larger: int, total_staked: int)
    requires
        0 <= total_rewards,
        smaller <= larger,
        0 < total_staked,
    ensures
        reward_share_of(total_rewards, smaller, total_staked) <= reward_share_of(
            total_rewards,
            larger,
            total_staked,
        ),
{
    assert(total_rewards * smaller <= total_rewards * larger) by (nonlinear_arith)
        requires
            0 <= total_rewards,
            smaller <= larger,
    ;
    vstd::arithmetic::div_mod::lemma_div_is_ordered(
        total_rewards * smaller,
        total_rewards * larger,
        total_staked,
    );
}

/// The rewards that rounding keeps from a depositor are less than one unit per
/// unit of stake: the share times the total stake misses the exact product by
/// less than the total stake.
pub proof fn lemma_share_rounding(total_rewards: int, staked: int, total_staked: int)
    requires
        0 < total_staked,
    ensures
        total_rewards * staked - total_staked < reward_share_of(total_rewards, staked, total_staked)
            * total_staked <= total_rewards * staked,
{
    let product = total_rewards * staked;
    vstd::arithmetic::div_mod::lemma_fundamental_div_mod(product, total_staked);
    vstd::arithmetic::div_mod::lemma_mod_bound(product, total_staked);
    assert(total_staked * (product / total_staked) == (product / total_staked) * total_staked)
        by (nonlinear_arith);
}

} // verus!
