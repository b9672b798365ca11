use vstd::prelude::*;
use crate::identity::Identity;

verus! {

/// Creation of a participant's stake record.
#[derive(Clone, Copy, Debug)]
pub struct Initialize {
    /// The verified signer, who becomes the record's owner.
    pub staker: Identity,
    /// Nonce of the pool's delegated authority for the new record.
    pub bump: u8,
    /// The current time, in seconds.
    pub now: i64,
}

/// Creation of the rate configuration.
#[derive(Clone, Copy, Debug)]
pub struct InitializeAdmin {
    /// The verified signer, who becomes the administrator.
    pub admin: Identity,
}

/// A deposit into the pool.
#[derive(Clone, Copy, Debug)]
pub struct Stake {
    /// The verified signer.
    pub staker: Identity,
    /// The participant's own token account, debited.
    pub user_token_account: Identity,
    /// The pool's token account, credited.
    pub staking_token_account: Identity,
    /// The current time, in seconds.
    pub now: i64,
}

/// A withdrawal from the pool.
#[derive(Clone, Copy, Debug)]
pub struct Unstake {
    /// The verified signer.
    pub staker: Identity,
    /// The participant's own token account, credited.
    pub user_token_account: Identity,
    /// The pool's token account, debited.
    pub staking_token_account: Identity,
    /// The current time, in seconds.
    pub now: i64,
}

/// An accrual of reward on a record.
#[derive(Clone, Copy, Debug)]
pub struct DistributeRewards {
    /// The verified signer.
    pub staker: Identity,
    /// The current time, in seconds.
    pub now: i64,
    /// Reward units per staked unit per second. The rate is the caller's
    /// choice: the fixed `FIXED_REWARD_RATE_PER_SECOND`, or the configured
    /// `AdminAccount::reward_rate`.
    pub reward_rate: u64,
}

/// A change of the rate configuration.
#[derive(Clone, Copy, Debug)]
pub struct SetAdmin {
    /// The verified signer.
    pub admin: Identity,
}

} // verus!
