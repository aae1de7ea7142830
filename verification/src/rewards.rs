use vstd::prelude::*;
use crate::errors::StakingError;
use crate::records::LAMPORTS_PER_SOL;

verus! {

/// Rewards accrued by a stake of `staked_amount` at rate `reward_rate`
/// over `elapsed` seconds: the three-way product scaled down by the
/// native base unit, rounded towards zero.
pub open spec fn accrued_rewards(staked_amount: u64, reward_rate: u64, elapsed: i64) -> int
    recommends
        elapsed >= 0,
{
    (staked_amount * reward_rate * elapsed) / (LAMPORTS_PER_SOL as int)
}

/// The reward computation stays within machine bounds: the three-way
/// product fits the wide intermediate and the scaled result fits the
/// counter it is paid out through.
pub open spec fn reward_computation_fits(staked_amount: u64, reward_rate: u64, elapsed: i64) -> bool
    recommends
        elapsed >= 0,
{
    &&& staked_amount * reward_rate * elapsed <= u128::MAX
    &&& accrued_rewards(staked_amount, reward_rate, elapsed) <= u64::MAX
}

/// Accrual never goes negative: a stake earns rewards, it cannot owe them.
pub proof fn lemma_accrued_rewards_nonneg(staked_amount: u64, reward_rate: u64, elapsed: i64)
    requires
        elapsed >= 0,
    ensures
        accrued_rewards(staked_amount, reward_rate, elapsed) >= 0,
{
    assert(staked_amount * reward_rate * elapsed >= 0) by (nonlinear_arith)
        requires
            staked_amount >= 0,
            reward_rate >= 0,
            elapsed >= 0,
    ;
    vstd::arithmetic::div_mod::lemma_div_pos_is_pos(
        staked_amount * reward_rate * elapsed,
        LAMPORTS_PER_SOL as int,
    );
}

/// Accrual never falls as time passes: with the stake and rate fixed, the
/// rewards accrued over a longer elapsed time are at least those accrued
/// over a shorter one.
pub proof fn lemma_accrued_rewards_monotone(
    staked_amount: u64,
    reward_rate: u64,
    shorter: i64,
    longer: i64,
)
    requires
        0 <= shorter <= longer,
    ensures
        accrued_rewards(staked_amount, reward_rate, shorter) <= accrued_rewards(
            staked_amount,
            reward_rate,
            longer,
        ),
{
    assert(staked_amount * reward_rate * shorter <= staked_amount * reward_rate
        * longer) by (nonlinear_arith)
        requires
            staked_amount >= 0,
            reward_rate >= 0,
            0 <= shorter <= longer,
    ;
    vstd::arithmetic::div_mod::lemma_div_is_ordered(
        staked_amount * reward_rate * shorter,
        staked_amount * reward_rate * longer,
        LAMPORTS_PER_SOL as int,
    );
}

/// Computes the accrued rewards with a wide intermediate, failing instead
/// of wrapping whenever a step would leave its range.
pub fn calculate_rewards(staked_amount: u64, reward_rate: u64, elapsed: i64) -> (r: Result<
    u64,
    StakingError,
>)
    requires
        elapsed >= 0,
    ensures
        match r {
            Ok(v) => reward_computation_fits(staked_amount, reward_rate, elapsed) && v
                == accrued_rewards(staked_amount, reward_rate, elapsed),
            Err(e) => e == StakingError::CalculationError && !reward_computation_fits(
                staked_amount,
                reward_rate,
                elapsed,
            ),
        },
{
    proof {
        assert((staked_amount as int) * (reward_rate as int) <= (u64::MAX as int) * (
        u64::MAX as int)) by (nonlinear_arith)
            requires
                staked_amount <= u64::MAX,
                reward_rate <= u64::MAX,
        ;
    }
    let base: u128 = (staked_amount as u128) * (reward_rate as u128);
    match base.checked_mul(elapsed as u128) {
        Some(product) => {
            let scaled: u128 = product / (LAMPORTS_PER_SOL as u128);
            if scaled > u64::MAX as u128 {
                Err(StakingError::CalculationError)
            } else {
                Ok(scaled as u64)
            }
        },
        None => Err(StakingError::CalculationError),
    }
}

} // verus!
