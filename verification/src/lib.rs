//! A staking-pool accounting engine.
//!
//! Participants lock a native balance for a configured duration and earn
//! rewards in a separate reward asset, proportional to the amount staked,
//! the time elapsed, and a rate fixed at pool creation. The engine keeps
//! one singleton pool record and one record per active staker, and offers
//! five state transitions — initialize, add rewards, stake, claim rewards,
//! unstake — plus a read-only snapshot. Every transition validates its
//! inputs, uses checked arithmetic, and reports a specific failure cause;
//! moving actual balances between custody accounts is the host's job, so
//! balances and the clock enter each operation as plain values.

pub mod account;
pub mod errors;
pub mod records;
pub mod rewards;
pub mod ledger;
pub mod ops;
pub mod laws;
