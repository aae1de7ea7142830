use vstd::prelude::*;
use crate::account::AccountId;
use crate::records::{StakingPool, StakerAccount};

verus! {

/// Sum of the staked amounts of a sequence of staker records.
pub open spec fn sum_staked(s: Seq<StakerAccount>) -> int
    decreases s.len(),
{
    if s.len() == 0 {
        0
    } else {
        sum_staked(s.drop_last()) + s.last().staked_amount
    }
}

pub proof fn lemma_sum_staked_nonneg(s: Seq<StakerAccount>)
    ensures
        sum_staked(s) >= 0,
    decreases s.len(),
{
    if s.len() > 0 {
        lemma_sum_staked_nonneg(s.drop_last());
    }
}

pub proof fn lemma_sum_staked_push(s: Seq<StakerAccount>, x: StakerAccount)
    ensures
        sum_staked(s.push(x)) == sum_staked(s) + x.staked_amount,
{
    assert(s.push(x).drop_last() =~= s);
    assert(s.push(x).last() == x);
}

/// Each staked amount is at most the sum of all of them.
pub proof fn lemma_sum_staked_bounds_element(s: Seq<StakerAccount>, i: int)
    requires
        0 <= i < s.len(),
    ensures
        s[i].staked_amount <= sum_staked(s),
    decreases s.len(),
{
    if i == s.len() - 1 {
        lemma_sum_staked_nonneg(s.drop_last());
    } else {
        lemma_sum_staked_bounds_element(s.drop_last(), i);
    }
}

/// Replacing a record by one with the same staked amount keeps the sum.
pub proof fn lemma_sum_staked_update(s: Seq<StakerAccount>, i: int, x: StakerAccount)
    requires
        0 <= i < s.len(),
        x.staked_amount == s[i].staked_amount,
    ensures
        sum_staked(s.update(i, x)) == sum_staked(s),
    decreases s.len(),
{
    let t = s.update(i, x);
    if i == s.len() - 1 {
        assert(t.drop_last() =~= s.drop_last());
        assert(t.last() == x);
    } else {
        assert(t.drop_last() =~= s.drop_last().update(i, x));
        lemma_sum_staked_update(s.drop_last(), i, x);
        assert(t.last() == s.last());
    }
}

pub proof fn lemma_sum_staked_remove(s: Seq<StakerAccount>, i: int)
    requires
        0 <= i < s.len(),
    ensures
        sum_staked(s.remove(i)) == sum_staked(s) - s[i].staked_amount,
    decreases s.len(),
{
    if i == s.len() - 1 {
        assert(s.remove(i) =~= s.drop_last());
    } else {
        let t = s.remove(i);
        assert(t.drop_last() =~= s.drop_last().remove(i));
        lemma_sum_staked_remove(s.drop_last(), i);
        assert(t.last() == s.last());
    }
}

/// The whole deployment as the engine sees it: the single well-known slot
/// for the pool record and one record per active staker, keyed by owner.
pub struct StakingLedger {
    pub pool: Option<StakingPool>,
    pub stakers: Vec<StakerAccount>,
}

impl StakingLedger {
    /// Some staker record belongs to `owner`.
    pub open spec fn has_staker(self, owner: AccountId) -> bool {
        exists|i: int| 0 <= i < self.stakers@.len() && self.stakers@[i].owner == owner
    }

    /// Position of `owner`'s record; meaningful only while `has_staker`
    /// holds, and unique while owners are distinct.
    pub open spec fn staker_index(self, owner: AccountId) -> int {
        choose|i: int| 0 <= i < self.stakers@.len() && self.stakers@[i].owner == owner
    }

    /// The record belonging to `owner`.
    pub open spec fn staker_for(self, owner: AccountId) -> StakerAccount {
        self.stakers@[self.staker_index(owner)]
    }

    /// No two records share an owner: at most one active stake each.
    pub open spec fn owners_distinct(self) -> bool {
        forall|i: int, j: int|
            0 <= i < j < self.stakers@.len() ==> self.stakers@[i].owner
                != self.stakers@[j].owner
    }

    /// Every active stake locks a positive amount.
    pub open spec fn amounts_positive(self) -> bool {
        forall|i: int| 0 <= i < self.stakers@.len() ==> self.stakers@[i].staked_amount > 0
    }

    /// Well-formedness of the deployment: owners are distinct, stakes are
    /// positive, staker records exist only once the pool does, the pool's
    /// configuration is in range, and the pool's aggregate counter equals
    /// the sum of the active stakes.
    pub open spec fn wf(self) -> bool {
        &&& self.owners_distinct()
        &&& self.amounts_positive()
        &&& match self.pool {
            Some(pool) => pool.config_valid() && pool.total_staked == sum_staked(self.stakers@),
            None => self.stakers@.len() == 0,
        }
    }

    /// A deployment before its pool has been created.
    pub fn new() -> (l: StakingLedger)
        ensures
            l.wf(),
            l.pool is None,
            l.stakers@.len() == 0,
    {
        StakingLedger { pool: None, stakers: Vec::new() }
    }

    /// Read-only lookup of `owner`'s staker record.
    pub fn staker_of(&self, owner: AccountId) -> (r: Option<StakerAccount>)
        requires
            self.owners_distinct(),
        ensures
            match r {
                Some(st) => self.has_staker(owner) && st == self.staker_for(owner),
                None => !self.has_staker(owner),
            },
    {
        match find_staker_index(&self.stakers, owner) {
            Some(i) => {
                proof {
                    lemma_staker_index_is_unique(*self, owner, i as int);
                }
                Some(self.stakers[i])
            },
            None => None,
        }
    }

    /// Number of active staker records.
    pub fn staker_count(&self) -> (n: usize)
        ensures
            n == self.stakers@.len(),
    {
        self.stakers.len()
    }
}

/// While owners are distinct, any position holding `owner`'s record is
/// the position `staker_index` denotes.
pub proof fn lemma_staker_index_is_unique(l: StakingLedger, owner: AccountId, i: int)
    requires
        l.owners_distinct(),
        0 <= i < l.stakers@.len(),
        l.stakers@[i].owner == owner,
    ensures
        l.has_staker(owner),
        l.staker_index(owner) == i,
{
    assert(l.has_staker(owner));
    let j = l.staker_index(owner);
    if i < j {
        assert(l.stakers@[i].owner != l.stakers@[j].owner);
    } else if j < i {
        assert(l.stakers@[j].owner != l.stakers@[i].owner);
    }
}

/// First position holding `owner`'s record, if any.
pub(crate) fn find_staker_index(stakers: &Vec<StakerAccount>, owner: AccountId) -> (r: Option<
    usize,
>)
    ensures
        match r {
            Some(i) => 0 <= i < stakers@.len() && stakers@[i as int].owner == owner,
            None => forall|k: int| 0 <= k < stakers@.len() ==> stakers@[k].owner != owner,
        },
{
    let mut i: usize = 0;
    while i < stakers.len()
        invariant
            i <= stakers@.len(),
            forall|k: int| 0 <= k < i ==> stakers@[k].owner != owner,
        decreases stakers@.len() - i,
    {
        if stakers[i].owner == owner {
            return Some(i);
        }
        i = i + 1;
    }
    None
}

} // verus!
