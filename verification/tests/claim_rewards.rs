use hundred_x_staking::account::{AccountId, TokenAccount};
use hundred_x_staking::errors::StakingError;
use hundred_x_staking::ledger::StakingLedger;
use hundred_x_staking::ops::{claim_rewards, get_pool_stats, initialize, stake};
use hundred_x_staking::rewards::calculate_rewards;

const DAY: i64 = 86400;
const SOL: u64 = 1_000_000_000;

fn admin() -> AccountId {
    AccountId { key: 1 }
}

fn mint() -> AccountId {
    AccountId { key: 2 }
}

fn alice() -> AccountId {
    AccountId { key: 10 }
}

fn custody(amount: u64) -> TokenAccount {
    TokenAccount { mint: mint(), owner: admin(), amount }
}

fn destination() -> TokenAccount {
    TokenAccount { mint: mint(), owner: alice(), amount: 0 }
}

fn pool_with_alice(reward_rate: u64, staked: u64, stake_time: i64) -> StakingLedger {
    let mut ledger = StakingLedger::new();
    let r = initialize(&mut ledger, admin(), mint(), reward_rate, DAY, 1_000_000, 255);
    assert_eq!(r, Ok(()));
    assert_eq!(stake(&mut ledger, alice(), staked, staked, stake_time), Ok(()));
    ledger
}

#[test]
fn reward_formula_documented_example() {
    // one native unit staked at rate 10 for 1000 seconds accrues 10_000
    assert_eq!(calculate_rewards(SOL, 10, 1000), Ok(10_000));
}

#[test]
fn reward_formula_rounds_towards_zero() {
    // 999_999_999 * 1 * 1 / 1_000_000_000 == 0
    assert_eq!(calculate_rewards(SOL - 1, 1, 1), Ok(0));
    assert_eq!(calculate_rewards(SOL - 1, 1, 2), Ok(1));
}

#[test]
fn reward_formula_fails_when_the_result_leaves_the_counter() {
    // the scaled result exceeds the 64-bit payout counter
    assert_eq!(
        calculate_rewards(u64::MAX, 1000, 10_000_000),
        Err(StakingError::CalculationError)
    );
}

#[test]
fn reward_formula_fails_when_the_product_leaves_the_intermediate() {
    // the three-way product exceeds the 128-bit intermediate
    assert_eq!(
        calculate_rewards(u64::MAX, 1000, i64::MAX),
        Err(StakingError::CalculationError)
    );
}

#[test]
fn claim_pays_the_accrued_rewards() {
    let mut ledger = pool_with_alice(10, SOL, 0);
    let r = claim_rewards(&mut ledger, alice(), &custody(1_000_000), &destination(), 1000);
    assert_eq!(r, Ok(10_000));
    assert_eq!(ledger.staker_of(alice()).unwrap().rewards_claimed, 10_000);
}

#[test]
fn claim_pays_only_the_difference_since_the_last_claim() {
    let mut ledger = pool_with_alice(10, SOL, 0);
    assert_eq!(
        claim_rewards(&mut ledger, alice(), &custody(1_000_000), &destination(), 1000),
        Ok(10_000)
    );
    assert_eq!(
        claim_rewards(&mut ledger, alice(), &custody(1_000_000), &destination(), 1500),
        Ok(5_000)
    );
    assert_eq!(ledger.staker_of(alice()).unwrap().rewards_claimed, 15_000);
}

#[test]
fn second_claim_with_no_elapsed_time_pays_zero() {
    let mut ledger = pool_with_alice(10, SOL, 0);
    assert_eq!(
        claim_rewards(&mut ledger, alice(), &custody(1_000_000), &destination(), 1000),
        Ok(10_000)
    );
    let again = claim_rewards(&mut ledger, alice(), &custody(1_000_000), &destination(), 1000);
    assert_eq!(again, Ok(0));
    assert_eq!(ledger.staker_of(alice()).unwrap().rewards_claimed, 10_000);
}

#[test]
fn claim_needs_an_active_stake() {
    let mut ledger = StakingLedger::new();
    let r = initialize(&mut ledger, admin(), mint(), 10, DAY, 1_000_000, 255);
    assert_eq!(r, Ok(()));
    let c = claim_rewards(&mut ledger, alice(), &custody(1_000_000), &destination(), 1000);
    assert_eq!(c, Err(StakingError::StakerNotFound));
}

#[test]
fn claim_needs_the_pool() {
    let mut ledger = StakingLedger::new();
    let c = claim_rewards(&mut ledger, alice(), &custody(1_000_000), &destination(), 1000);
    assert_eq!(c, Err(StakingError::PoolNotInitialized));
}

#[test]
fn claim_checks_the_custody_accounts_asset() {
    let mut ledger = pool_with_alice(10, SOL, 0);
    let wrong = TokenAccount { mint: AccountId { key: 99 }, owner: admin(), amount: 1_000_000 };
    let c = claim_rewards(&mut ledger, alice(), &wrong, &destination(), 1000);
    assert_eq!(c, Err(StakingError::InvalidTokenAccount));
}

#[test]
fn claim_checks_the_destinations_asset() {
    let mut ledger = pool_with_alice(10, SOL, 0);
    let wrong = TokenAccount { mint: AccountId { key: 99 }, owner: alice(), amount: 0 };
    let c = claim_rewards(&mut ledger, alice(), &custody(1_000_000), &wrong, 1000);
    assert_eq!(c, Err(StakingError::InvalidTokenAccount));
}

#[test]
fn claim_checks_the_destinations_owner() {
    let mut ledger = pool_with_alice(10, SOL, 0);
    let foreign = TokenAccount { mint: mint(), owner: AccountId { key: 99 }, amount: 0 };
    let c = claim_rewards(&mut ledger, alice(), &custody(1_000_000), &foreign, 1000);
    assert_eq!(c, Err(StakingError::InvalidTokenAccountOwner));
}

#[test]
fn claim_fails_on_clock_skew() {
    // the clock reads earlier than the stake's creation
    let mut ledger = pool_with_alice(10, SOL, 1000);
    let c = claim_rewards(&mut ledger, alice(), &custody(1_000_000), &destination(), 999);
    assert_eq!(c, Err(StakingError::CalculationError));
}

#[test]
fn claim_fails_when_the_elapsed_time_is_unrepresentable() {
    let mut ledger = pool_with_alice(10, SOL, -i64::MAX);
    let c = claim_rewards(&mut ledger, alice(), &custody(1_000_000), &destination(), DAY);
    assert_eq!(c, Err(StakingError::CalculationError));
}

#[test]
fn claim_fails_when_the_clock_fell_behind_an_earlier_claim() {
    let mut ledger = pool_with_alice(10, SOL, 0);
    assert_eq!(
        claim_rewards(&mut ledger, alice(), &custody(1_000_000), &destination(), 2000),
        Ok(20_000)
    );
    let c = claim_rewards(&mut ledger, alice(), &custody(1_000_000), &destination(), 1000);
    assert_eq!(c, Err(StakingError::CalculationError));
    assert_eq!(ledger.staker_of(alice()).unwrap().rewards_claimed, 20_000);
}

#[test]
fn claim_needs_custody_to_cover_the_payout() {
    let mut ledger = pool_with_alice(10, SOL, 0);
    let c = claim_rewards(&mut ledger, alice(), &custody(9_999), &destination(), 1000);
    assert_eq!(c, Err(StakingError::InsufficientPoolTokens));
    assert_eq!(ledger.staker_of(alice()).unwrap().rewards_claimed, 0);
}

#[test]
fn claim_touches_neither_funding_counter() {
    // available_rewards records funding headroom at deposit time and
    // total_rewards_distributed is never updated: both stay as they were
    let mut ledger = pool_with_alice(10, SOL, 0);
    assert_eq!(
        claim_rewards(&mut ledger, alice(), &custody(1_000_000), &destination(), 1000),
        Ok(10_000)
    );
    let stats = get_pool_stats(&ledger).unwrap();
    assert_eq!(stats.available_rewards, 1_000_000);
    assert_eq!(stats.total_rewards_distributed, 0);
}
