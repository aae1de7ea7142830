use vstd::prelude::*;

verus! {

/// Identity of an account known to the host ledger. Participants, the pool
/// administrator and asset identifiers are all named by such identities;
/// the engine only ever compares them for equality.
#[derive(Clone, Copy, Debug, PartialEq, Eq, Structural)]
pub struct AccountId {
    pub key: u64,
}

/// What a reward-asset account exposes to the accounting engine: which
/// asset it holds, which identity owns it, and its current balance.
#[derive(Clone, Copy, Debug, PartialEq, Eq, Structural)]
pub struct TokenAccount {
    pub mint: AccountId,
    pub owner: AccountId,
    pub amount: u64,
}

} // verus!
