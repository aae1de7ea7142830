use vstd::prelude::*;
use crate::account::AccountId;
use crate::ledger::{lemma_staker_index_is_unique, sum_staked, StakingLedger};
use crate::ops::{claim_accrued, claim_elapsed, claim_payout, initialize_permitted};
use crate::rewards::{lemma_accrued_rewards_monotone, lemma_accrued_rewards_nonneg};

verus! {

/// The pool is a singleton: once its slot is occupied, no input whatever
/// permits `initialize` again. Together with the `initialize` contract —
/// success exactly on valid inputs and an empty slot, and an occupied
/// slot afterwards — the pool is created exactly once per deployment.
pub proof fn lemma_pool_initializes_at_most_once(
    l: StakingLedger,
    reward_rate: u64,
    lock_period: i64,
    pool_token_amount: u64,
)
    requires
        l.pool is Some,
    ensures
        !initialize_permitted(l, reward_rate, lock_period, pool_token_amount),
{
}

/// The pool's aggregate counter never drifts: in every well-formed
/// deployment it equals the sum of the currently active staked amounts.
/// Every operation's contract preserves well-formedness, so this holds
/// after any sequence of successful stake and unstake calls.
pub proof fn lemma_total_staked_matches_stakers(l: StakingLedger)
    requires
        l.wf(),
        l.pool is Some,
    ensures
        l.pool->0.total_staked == sum_staked(l.stakers@),
{
}

/// Claiming twice with no time elapsed in between pays nothing the second
/// time. A successful claim at clock reading `now` leaves the record's
/// cumulative counter at the accrual for `now` — exactly the `after`
/// state below, as the `claim_rewards` contract states it. At the same
/// clock reading the record still exists and the remaining payout is
/// zero, so the second claim is a no-op transfer, not an error.
pub proof fn lemma_second_claim_at_same_instant_pays_zero(
    before: StakingLedger,
    after: StakingLedger,
    user: AccountId,
    now: i64,
)
    requires
        before.wf(),
        before.pool is Some,
        before.has_staker(user),
        0 <= claim_elapsed(before, user, now) <= i64::MAX,
        claim_accrued(before, user, now) <= u64::MAX,
        after.pool == before.pool,
        after.stakers@ == before.stakers@.update(
            before.staker_index(user),
            before.staker_for(user).with_rewards_claimed(claim_accrued(before, user, now) as u64),
        ),
    ensures
        after.has_staker(user),
        claim_payout(after, user, now) == 0,
{
    let i = before.staker_index(user);
    assert(after.stakers@[i].owner == user);
    assert(after.has_staker(user));
    assert forall|p: int, q: int|
        0 <= p < q < after.stakers@.len() implies after.stakers@[p].owner
        != after.stakers@[q].owner by {
        assert(after.stakers@[p].owner == before.stakers@[p].owner);
        assert(after.stakers@[q].owner == before.stakers@[q].owner);
    }
    lemma_staker_index_is_unique(after, user, i);
    let st = before.staker_for(user);
    lemma_accrued_rewards_nonneg(
        st.staked_amount,
        before.pool->0.reward_rate,
        claim_elapsed(before, user, now) as i64,
    );
    assert(claim_accrued(after, user, now) == claim_accrued(before, user, now));
}

/// A cumulative claimed counter that lies within the accrual at one clock
/// reading lies within it at every later reading too: claims performed
/// under a forward-moving clock never pay out more than the formula owes.
pub proof fn lemma_claimed_stays_within_accrual(
    l: StakingLedger,
    user: AccountId,
    earlier: i64,
    later: i64,
)
    requires
        l.pool is Some,
        l.has_staker(user),
        0 <= claim_elapsed(l, user, earlier),
        earlier <= later,
        claim_elapsed(l, user, later) <= i64::MAX,
        l.staker_for(user).rewards_claimed <= claim_accrued(l, user, earlier),
    ensures
        l.staker_for(user).rewards_claimed <= claim_accrued(l, user, later),
{
    lemma_accrued_rewards_monotone(
        l.staker_for(user).staked_amount,
        l.pool->0.reward_rate,
        claim_elapsed(l, user, earlier) as i64,
        claim_elapsed(l, user, later) as i64,
    );
}

} // verus!
