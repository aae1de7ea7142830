use vstd::prelude::*;

verus! {

/// Every way an operation of the staking pool can fail. Each operation
/// aborts with exactly one of these causes and leaves the ledger unchanged.
#[derive(Clone, Copy, Debug, PartialEq, Eq, Structural)]
pub enum StakingError {
    /// Unstake attempted before the lock period has elapsed.
    LockPeriodNotOver,
    /// Reward rate outside the allowed range at pool creation.
    InvalidRewardRate,
    /// Lock period outside the allowed range at pool creation.
    InvalidLockPeriod,
    /// The asset's issuing authority does not match expectations.
    InvalidMintAuthority,
    /// Stake amount of zero.
    InvalidStakeAmount,
    /// Stake amount exceeds the caller's native balance.
    InsufficientFunds,
    /// The pool's aggregate stake counter would overflow.
    PoolOverflow,
    /// A reward-asset account does not hold the pool's reward asset.
    InvalidTokenAccount,
    /// The reward destination account is not owned by the caller.
    InvalidTokenAccountOwner,
    /// A checked addition, subtraction, multiplication or division failed.
    CalculationError,
    /// The pool's reward custody balance cannot cover the payout.
    InsufficientPoolTokens,
    /// The staker record is not owned by the caller.
    InvalidStakerOwner,
    /// The pool's native custody balance cannot cover the refund.
    InsufficientPoolBalance,
    /// Initial funding amount of zero at pool creation.
    InvalidPoolTokenAmount,
    /// Funding amount of zero when adding rewards.
    InvalidAmount,
    /// The singleton pool record already exists.
    PoolAlreadyInitialized,
    /// The singleton pool record does not exist yet.
    PoolNotInitialized,
    /// The caller already has an active stake.
    StakerAlreadyExists,
    /// The caller has no active stake.
    StakerNotFound,
}

} // verus!
