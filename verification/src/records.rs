use vstd::prelude::*;
use crate::account::AccountId;

verus! {

/// Shortest lock period a pool may be created with: one day, in seconds.
pub const MIN_LOCK_PERIOD: i64 = 24 * 60 * 60;

/// Longest lock period a pool may be created with: one year, in seconds.
pub const MAX_LOCK_PERIOD: i64 = 365 * 24 * 60 * 60;

/// Smallest admissible reward rate.
pub const MIN_REWARD_RATE: u64 = 1;

/// Largest admissible reward rate.
pub const MAX_REWARD_RATE: u64 = 1000;

/// Base unit of the native currency; the reward formula divides by it.
pub const LAMPORTS_PER_SOL: u64 = 1_000_000_000;

pub open spec fn reward_rate_valid(reward_rate: u64) -> bool {
    MIN_REWARD_RATE <= reward_rate && reward_rate <= MAX_REWARD_RATE
}

pub open spec fn lock_period_valid(lock_period: i64) -> bool {
    MIN_LOCK_PERIOD <= lock_period && lock_period <= MAX_LOCK_PERIOD
}

/// The singleton pool record: configuration fixed at creation, plus the
/// aggregate counters the operations maintain.
#[derive(Clone, Copy, Debug, PartialEq, Eq, Structural)]
pub struct StakingPool {
    /// Identity of the pool's creator and administrator.
    pub authority: AccountId,
    /// Identity of the asset paid out as rewards.
    pub hundred_x_mint: AccountId,
    /// Reward rate, fixed for the pool's lifetime.
    pub reward_rate: u64,
    /// Lock period in seconds, fixed for the pool's lifetime.
    pub lock_period: i64,
    /// Sum of all active stakers' staked amounts.
    pub total_staked: u64,
    /// Declared running total of rewards paid out. No operation updates
    /// it: a latent defect of the design, kept as it stands.
    pub total_rewards_distributed: u64,
    /// Reward-asset funding recorded at deposit time. Claims never
    /// decrement it, so it is headroom at funding time, not a live
    /// spend counter.
    pub available_rewards: u64,
    /// Nonce under which the pool's address was derived; the host uses it
    /// to re-derive the pool's own signing authority.
    pub bump: u8,
}

impl StakingPool {
    /// Both configuration values lie in their admissible ranges.
    pub open spec fn config_valid(self) -> bool {
        reward_rate_valid(self.reward_rate) && lock_period_valid(self.lock_period)
    }

    /// The same pool with its aggregate stake counter replaced.
    pub open spec fn with_total_staked(self, total_staked: u64) -> StakingPool {
        StakingPool { total_staked, ..self }
    }

    /// The same pool with its recorded reward funding replaced.
    pub open spec fn with_available_rewards(self, available_rewards: u64) -> StakingPool {
        StakingPool { available_rewards, ..self }
    }
}

/// The pool record as `initialize` creates it.
pub open spec fn initialized_pool(
    authority: AccountId,
    hundred_x_mint: AccountId,
    reward_rate: u64,
    lock_period: i64,
    pool_token_amount: u64,
    bump: u8,
) -> StakingPool {
    StakingPool {
        authority,
        hundred_x_mint,
        reward_rate,
        lock_period,
        total_staked: 0,
        total_rewards_distributed: 0,
        available_rewards: pool_token_amount,
        bump,
    }
}

/// One record per active staker; created on stake, destroyed on unstake.
#[derive(Clone, Copy, Debug, PartialEq, Eq, Structural)]
pub struct StakerAccount {
    /// Identity of the staking participant.
    pub owner: AccountId,
    /// Native-currency units locked; fixed once set.
    pub staked_amount: u64,
    /// Wall-clock time at which the stake was created.
    pub stake_timestamp: i64,
    /// Cumulative rewards already paid out to this participant.
    pub rewards_claimed: u64,
}

impl StakerAccount {
    /// The same record with its cumulative claimed rewards replaced.
    pub open spec fn with_rewards_claimed(self, rewards_claimed: u64) -> StakerAccount {
        StakerAccount { rewards_claimed, ..self }
    }
}

/// The staker record as `stake` creates it.
pub open spec fn new_staker(owner: AccountId, amount: u64, now: i64) -> StakerAccount {
    StakerAccount { owner, staked_amount: amount, stake_timestamp: now, rewards_claimed: 0 }
}

/// Read-only snapshot of the pool's public counters and configuration.
#[derive(Clone, Copy, Debug, PartialEq, Eq, Structural)]
pub struct PoolStats {
    pub total_staked: u64,
    pub available_rewards: u64,
    pub total_rewards_distributed: u64,
    pub current_reward_rate: u64,
    pub lock_period: i64,
}

/// The snapshot `get_pool_stats` projects out of a pool record.
pub open spec fn stats_of(pool: StakingPool) -> PoolStats {
    PoolStats {
        total_staked: pool.total_staked,
        available_rewards: pool.available_rewards,
        total_rewards_distributed: pool.total_rewards_distributed,
        current_reward_rate: pool.reward_rate,
        lock_period: pool.lock_period,
    }
}

} // verus!
