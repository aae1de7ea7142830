use vstd::prelude::*;
use crate::account::{AccountId, TokenAccount};
use crate::errors::StakingError;
use crate::ledger::{
    find_staker_index, lemma_staker_index_is_unique, lemma_sum_staked_bounds_element,
    lemma_sum_staked_push, lemma_sum_staked_remove, lemma_sum_staked_update, StakingLedger,
};
use crate::records::{
    initialized_pool, lock_period_valid, new_staker, reward_rate_valid, stats_of, PoolStats,
    StakerAccount, StakingPool, MAX_LOCK_PERIOD, MAX_REWARD_RATE, MIN_LOCK_PERIOD,
    MIN_REWARD_RATE,
};
use crate::rewards::{accrued_rewards, calculate_rewards, reward_computation_fits};

verus! {

/// `initialize` succeeds on exactly these inputs: configuration in range,
/// positive funding, and the singleton slot still empty.
pub open spec fn initialize_permitted(
    l: StakingLedger,
    reward_rate: u64,
    lock_period: i64,
    pool_token_amount: u64,
) -> bool {
    &&& reward_rate_valid(reward_rate)
    &&& lock_period_valid(lock_period)
    &&& pool_token_amount > 0
    &&& l.pool is None
}

/// The cause `initialize` reports when it is not permitted.
pub open spec fn initialize_error(
    l: StakingLedger,
    reward_rate: u64,
    lock_period: i64,
    pool_token_amount: u64,
) -> StakingError {
    if !reward_rate_valid(reward_rate) {
        StakingError::InvalidRewardRate
    } else if !lock_period_valid(lock_period) {
        StakingError::InvalidLockPeriod
    } else if pool_token_amount == 0 {
        StakingError::InvalidPoolTokenAmount
    } else {
        StakingError::PoolAlreadyInitialized
    }
}

/// Creates the singleton pool record. On success the host's transfer
/// gateway owes the pool custody a deposit of `pool_token_amount` of the
/// reward asset, authorized by the administrator.
pub fn initialize(
    ledger: &mut StakingLedger,
    authority: AccountId,
    hundred_x_mint: AccountId,
    reward_rate: u64,
    lock_period: i64,
    pool_token_amount: u64,
    bump: u8,
) -> (r: Result<(), StakingError>)
    requires
        old(ledger).wf(),
    ensures
        final(ledger).wf(),
        r is Ok <==> initialize_permitted(*old(ledger), reward_rate, lock_period, pool_token_amount),
        r is Ok ==> final(ledger).pool == Some(
            initialized_pool(authority, hundred_x_mint, reward_rate, lock_period, pool_token_amount, bump),
        ) && final(ledger).stakers@ == old(ledger).stakers@,
        r matches Err(e) ==> e == initialize_error(
            *old(ledger),
            reward_rate,
            lock_period,
            pool_token_amount,
        ) && *final(ledger) == *old(ledger),
{
    if reward_rate < MIN_REWARD_RATE || reward_rate > MAX_REWARD_RATE {
        return Err(StakingError::InvalidRewardRate);
    }
    if lock_period < MIN_LOCK_PERIOD || lock_period > MAX_LOCK_PERIOD {
        return Err(StakingError::InvalidLockPeriod);
    }
    if pool_token_amount == 0 {
        return Err(StakingError::InvalidPoolTokenAmount);
    }
    if ledger.pool.is_some() {
        return Err(StakingError::PoolAlreadyInitialized);
    }
    ledger.pool = Some(
        StakingPool {
            authority,
            hundred_x_mint,
            reward_rate,
            lock_period,
            total_staked: 0,
            total_rewards_distributed: 0,
            available_rewards: pool_token_amount,
            bump,
        },
    );
    Ok(())
}

/// `add_rewards` succeeds on exactly these inputs: a positive amount, an
/// existing pool, and a funding counter that can still take the amount.
pub open spec fn add_rewards_permitted(l: StakingLedger, amount: u64) -> bool {
    &&& amount > 0
    &&& l.pool is Some
    &&& l.pool->0.available_rewards + amount <= u64::MAX
}

/// The cause `add_rewards` reports when it is not permitted.
pub open spec fn add_rewards_error(l: StakingLedger, amount: u64) -> StakingError {
    if amount == 0 {
        StakingError::InvalidAmount
    } else if l.pool is None {
        StakingError::PoolNotInitialized
    } else {
        StakingError::CalculationError
    }
}

/// Records a reward-asset deposit. On success the host's transfer gateway
/// owes the pool custody `amount` of the reward asset from the funder.
pub fn add_rewards(ledger: &mut StakingLedger, amount: u64) -> (r: Result<(), StakingError>)
    requires
        old(ledger).wf(),
    ensures
        final(ledger).wf(),
        r is Ok <==> add_rewards_permitted(*old(ledger), amount),
        r is Ok ==> final(ledger).pool == Some(
            old(ledger).pool->0.with_available_rewards(
                (old(ledger).pool->0.available_rewards + amount) as u64,
            ),
        ) && final(ledger).stakers@ == old(ledger).stakers@,
        r matches Err(e) ==> e == add_rewards_error(*old(ledger), amount) && *final(ledger)
            == *old(ledger),
{
    if amount == 0 {
        return Err(StakingError::InvalidAmount);
    }
    let pool = match ledger.pool {
        None => { return Err(StakingError::PoolNotInitialized) },
        Some(p) => p,
    };
    match pool.available_rewards.checked_add(amount) {
        None => Err(StakingError::CalculationError),
        Some(funded) => {
            ledger.pool = Some(StakingPool { available_rewards: funded, ..pool });
            Ok(())
        },
    }
}

/// `stake` succeeds on exactly these inputs: a positive amount within the
/// caller's balance, an existing pool whose aggregate counter can take the
/// amount, and no active stake yet for the caller.
pub open spec fn stake_permitted(
    l: StakingLedger,
    user: AccountId,
    amount: u64,
    user_balance: u64,
) -> bool {
    &&& amount > 0
    &&& amount <= user_balance
    &&& l.pool is Some
    &&& l.pool->0.total_staked + amount <= u64::MAX
    &&& !l.has_staker(user)
}

/// The cause `stake` reports when it is not permitted.
pub open spec fn stake_error(
    l: StakingLedger,
    user: AccountId,
    amount: u64,
    user_balance: u64,
) -> StakingError {
    if amount == 0 {
        StakingError::InvalidStakeAmount
    } else if amount > user_balance {
        StakingError::InsufficientFunds
    } else if l.pool is None {
        StakingError::PoolNotInitialized
    } else if l.pool->0.total_staked + amount > u64::MAX {
        StakingError::PoolOverflow
    } else {
        StakingError::StakerAlreadyExists
    }
}

/// Locks `amount` native units for `user`. On success the host has already
/// moved `amount` from the caller to the pool custody, authorized by the
/// caller; the new record carries the clock reading `now`.
pub fn stake(
    ledger: &mut StakingLedger,
    user: AccountId,
    amount: u64,
    user_balance: u64,
    now: i64,
) -> (r: Result<(), StakingError>)
    requires
        old(ledger).wf(),
    ensures
        final(ledger).wf(),
        r is Ok <==> stake_permitted(*old(ledger), user, amount, user_balance),
        r is Ok ==> final(ledger).stakers@ == old(ledger).stakers@.push(
            new_staker(user, amount, now),
        ) && final(ledger).pool == Some(
            old(ledger).pool->0.with_total_staked((old(ledger).pool->0.total_staked + amount) as u64),
        ),
        r is Ok ==> final(ledger).has_staker(user) && final(ledger).staker_for(user) == new_staker(
            user,
            amount,
            now,
        ),
        r matches Err(e) ==> e == stake_error(*old(ledger), user, amount, user_balance)
            && *final(ledger) == *old(ledger),
{
    if amount == 0 {
        return Err(StakingError::InvalidStakeAmount);
    }
    if amount > user_balance {
        return Err(StakingError::InsufficientFunds);
    }
    let pool = match ledger.pool {
        None => { return Err(StakingError::PoolNotInitialized) },
        Some(p) => p,
    };
    let raised = match pool.total_staked.checked_add(amount) {
        None => { return Err(StakingError::PoolOverflow) },
        Some(t) => t,
    };
    if find_staker_index(&ledger.stakers, user).is_some() {
        return Err(StakingError::StakerAlreadyExists);
    }
    let staker = StakerAccount {
        owner: user,
        staked_amount: amount,
        stake_timestamp: now,
        rewards_claimed: 0,
    };
    proof {
        lemma_sum_staked_push(ledger.stakers@, staker);
    }
    ledger.stakers.push(staker);
    ledger.pool = Some(StakingPool { total_staked: raised, ..pool });
    proof {
        lemma_staker_index_is_unique(*ledger, user, ledger.stakers@.len() - 1);
    }
    Ok(())
}

/// Seconds between the clock reading `now` and the creation of `user`'s
/// stake; meaningful only while that record exists.
pub open spec fn claim_elapsed(l: StakingLedger, user: AccountId, now: i64) -> int {
    now - l.staker_for(user).stake_timestamp
}

/// Rewards accrued by `user`'s stake up to the clock reading `now`.
pub open spec fn claim_accrued(l: StakingLedger, user: AccountId, now: i64) -> int
    recommends
        l.pool is Some,
        l.has_staker(user),
        0 <= claim_elapsed(l, user, now) <= i64::MAX,
{
    accrued_rewards(
        l.staker_for(user).staked_amount,
        l.pool->0.reward_rate,
        claim_elapsed(l, user, now) as i64,
    )
}

/// What a claim at the clock reading `now` pays out: accrued rewards less
/// those already claimed.
pub open spec fn claim_payout(l: StakingLedger, user: AccountId, now: i64) -> int {
    claim_accrued(l, user, now) - l.staker_for(user).rewards_claimed
}

/// `claim_rewards` succeeds on exactly these inputs: an existing pool and
/// stake, both reward-asset accounts holding the pool's reward asset, the
/// destination owned by the caller, a clock reading at or after the stake
/// whose accrual stays within machine bounds and has not fallen below the
/// amount already claimed, and a custody balance covering the payout.
pub open spec fn claim_permitted(
    l: StakingLedger,
    user: AccountId,
    pool_token_account: TokenAccount,
    user_token_account: TokenAccount,
    now: i64,
) -> bool {
    &&& l.pool is Some
    &&& l.has_staker(user)
    &&& pool_token_account.mint == l.pool->0.hundred_x_mint
    &&& user_token_account.mint == l.pool->0.hundred_x_mint
    &&& user_token_account.owner == user
    &&& 0 <= claim_elapsed(l, user, now) <= i64::MAX
    &&& reward_computation_fits(
        l.staker_for(user).staked_amount,
        l.pool->0.reward_rate,
        claim_elapsed(l, user, now) as i64,
    )
    &&& claim_accrued(l, user, now) >= l.staker_for(user).rewards_claimed
    &&& pool_token_account.amount >= claim_payout(l, user, now)
}

/// The cause `claim_rewards` reports when it is not permitted.
pub open spec fn claim_error(
    l: StakingLedger,
    user: AccountId,
    pool_token_account: TokenAccount,
    user_token_account: TokenAccount,
    now: i64,
) -> StakingError {
    if l.pool is None {
        StakingError::PoolNotInitialized
    } else if !l.has_staker(user) {
        StakingError::StakerNotFound
    } else if pool_token_account.mint != l.pool->0.hundred_x_mint {
        StakingError::InvalidTokenAccount
    } else if user_token_account.mint != l.pool->0.hundred_x_mint {
        StakingError::InvalidTokenAccount
    } else if user_token_account.owner != user {
        StakingError::InvalidTokenAccountOwner
    } else if !(0 <= claim_elapsed(l, user, now) <= i64::MAX) {
        StakingError::CalculationError
    } else if !reward_computation_fits(
        l.staker_for(user).staked_amount,
        l.pool->0.reward_rate,
        claim_elapsed(l, user, now) as i64,
    ) {
        StakingError::CalculationError
    } else if claim_accrued(l, user, now) < l.staker_for(user).rewards_claimed {
        StakingError::CalculationError
    } else {
        StakingError::InsufficientPoolTokens
    }
}

/// Pays out the rewards accrued since the stake was created, less those
/// already claimed. On success the host's transfer gateway owes the caller
/// the returned amount out of the pool custody, authorized by the pool's
/// own derived signing authority; the record's cumulative counter moves up
/// by exactly that amount. Neither `available_rewards` nor
/// `total_rewards_distributed` moves: the former records funding at
/// deposit time only, the latter is the schema's dead field.
pub fn claim_rewards(
    ledger: &mut StakingLedger,
    user: AccountId,
    pool_token_account: &TokenAccount,
    user_token_account: &TokenAccount,
    now: i64,
) -> (r: Result<u64, StakingError>)
    requires
        old(ledger).wf(),
    ensures
        final(ledger).wf(),
        r is Ok <==> claim_permitted(
            *old(ledger),
            user,
            *pool_token_account,
            *user_token_account,
            now,
        ),
        r matches Ok(v) ==> v == claim_payout(*old(ledger), user, now) && final(ledger).stakers@
            == old(ledger).stakers@.update(
            old(ledger).staker_index(user),
            old(ledger).staker_for(user).with_rewards_claimed(
                claim_accrued(*old(ledger), user, now) as u64,
            ),
        ) && final(ledger).pool == old(ledger).pool,
        r matches Err(e) ==> e == claim_error(
            *old(ledger),
            user,
            *pool_token_account,
            *user_token_account,
            now,
        ) && *final(ledger) == *old(ledger),
{
    let pool = match ledger.pool {
        None => { return Err(StakingError::PoolNotInitialized) },
        Some(p) => p,
    };
    let idx = match find_staker_index(&ledger.stakers, user) {
        None => { return Err(StakingError::StakerNotFound) },
        Some(i) => i,
    };
    proof {
        lemma_staker_index_is_unique(*ledger, user, idx as int);
    }
    let staker = ledger.stakers[idx];
    if pool_token_account.mint != pool.hundred_x_mint {
        return Err(StakingError::InvalidTokenAccount);
    }
    if user_token_account.mint != pool.hundred_x_mint {
        return Err(StakingError::InvalidTokenAccount);
    }
    if user_token_account.owner != user {
        return Err(StakingError::InvalidTokenAccountOwner);
    }
    let elapsed = match now.checked_sub(staker.stake_timestamp) {
        None => { return Err(StakingError::CalculationError) },
        Some(e) => e,
    };
    if elapsed < 0 {
        return Err(StakingError::CalculationError);
    }
    let accrued = match calculate_rewards(staker.staked_amount, pool.reward_rate, elapsed) {
        Err(e) => { return Err(e) },
        Ok(v) => v,
    };
    let to_claim = match accrued.checked_sub(staker.rewards_claimed) {
        None => { return Err(StakingError::CalculationError) },
        Some(v) => v,
    };
    if pool_token_account.amount < to_claim {
        return Err(StakingError::InsufficientPoolTokens);
    }
    let paid = StakerAccount { rewards_claimed: accrued, ..staker };
    proof {
        lemma_sum_staked_update(ledger.stakers@, idx as int, paid);
    }
    ledger.stakers.set(idx, paid);
    Ok(to_claim)
}

/// `unstake` succeeds on exactly these inputs: an existing pool and stake,
/// a clock reading at or past the unlock instant, and a native custody
/// balance covering the refund.
pub open spec fn unstake_permitted(
    l: StakingLedger,
    user: AccountId,
    now: i64,
    pool_native_balance: u64,
) -> bool {
    &&& l.pool is Some
    &&& l.has_staker(user)
    &&& now >= l.staker_for(user).stake_timestamp + l.pool->0.lock_period
    &&& pool_native_balance >= l.staker_for(user).staked_amount
}

/// The cause `unstake` reports when it is not permitted.
pub open spec fn unstake_error(
    l: StakingLedger,
    user: AccountId,
    now: i64,
    pool_native_balance: u64,
) -> StakingError {
    if l.pool is None {
        StakingError::PoolNotInitialized
    } else if !l.has_staker(user) {
        StakingError::StakerNotFound
    } else if now < l.staker_for(user).stake_timestamp + l.pool->0.lock_period {
        StakingError::LockPeriodNotOver
    } else {
        StakingError::InsufficientPoolBalance
    }
}

/// Returns the whole stake once the lock period has elapsed, destroying
/// the caller's record. On success the host debits the pool custody and
/// credits the caller by the returned amount, and refunds the record's
/// storage deposit. Rewards accrued but never claimed are forfeited: no
/// claim runs on this path. The record acted on is the one keyed by the
/// caller's identity, so an owner mismatch cannot arise here.
pub fn unstake(
    ledger: &mut StakingLedger,
    user: AccountId,
    now: i64,
    pool_native_balance: u64,
) -> (r: Result<u64, StakingError>)
    requires
        old(ledger).wf(),
    ensures
        final(ledger).wf(),
        r is Ok <==> unstake_permitted(*old(ledger), user, now, pool_native_balance),
        r matches Ok(v) ==> v == old(ledger).staker_for(user).staked_amount
            && final(ledger).stakers@ == old(ledger).stakers@.remove(old(ledger).staker_index(user))
            && !final(ledger).has_staker(user) && final(ledger).pool == Some(
            old(ledger).pool->0.with_total_staked((old(ledger).pool->0.total_staked - v) as u64),
        ),
        r matches Err(e) ==> e == unstake_error(*old(ledger), user, now, pool_native_balance)
            && *final(ledger) == *old(ledger),
{
    let pool = match ledger.pool {
        None => { return Err(StakingError::PoolNotInitialized) },
        Some(p) => p,
    };
    let idx = match find_staker_index(&ledger.stakers, user) {
        None => { return Err(StakingError::StakerNotFound) },
        Some(i) => i,
    };
    proof {
        lemma_staker_index_is_unique(*ledger, user, idx as int);
    }
    let staker = ledger.stakers[idx];
    let locked_until = match staker.stake_timestamp.checked_add(pool.lock_period) {
        // the unlock instant lies beyond representable time
        None => { return Err(StakingError::LockPeriodNotOver) },
        Some(t) => t,
    };
    if now < locked_until {
        return Err(StakingError::LockPeriodNotOver);
    }
    if pool_native_balance < staker.staked_amount {
        return Err(StakingError::InsufficientPoolBalance);
    }
    proof {
        lemma_sum_staked_remove(ledger.stakers@, idx as int);
        lemma_sum_staked_bounds_element(ledger.stakers@, idx as int);
    }
    ledger.stakers.remove(idx);
    ledger.pool = Some(StakingPool { total_staked: pool.total_staked - staker.staked_amount, ..pool });
    proof {
        assert forall|k: int| 0 <= k < ledger.stakers@.len() implies ledger.stakers@[k].owner
            != user by {
            if k < idx as int {
                assert(ledger.stakers@[k] == old(ledger).stakers@[k]);
            } else {
                assert(ledger.stakers@[k] == old(ledger).stakers@[k + 1]);
            }
        }
    }
    Ok(staker.staked_amount)
}

/// Read-only projection of the pool's public fields; `None` exactly when
/// the pool record does not exist.
pub fn get_pool_stats(ledger: &StakingLedger) -> (r: Option<PoolStats>)
    ensures
        match r {
            Some(stats) => ledger.pool is Some && stats == stats_of(ledger.pool->0),
            None => ledger.pool is None,
        },
{
    match ledger.pool {
        None => None,
        Some(pool) => Some(
            PoolStats {
                total_staked: pool.total_staked,
                available_rewards: pool.available_rewards,
                total_rewards_distributed: pool.total_rewards_distributed,
                current_reward_rate: pool.reward_rate,
                lock_period: pool.lock_period,
            },
        ),
    }
}

} // verus!
