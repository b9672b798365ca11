use vstd::prelude::*;
use crate::identity::Identity;

verus! {

/// One participant's stake record.
#[derive(Clone, Copy, Debug)]
pub struct StakingAccount {
    /// The participant; set when the record is created and never changed.
    pub staker: Identity,
    /// Units currently staked.
    pub amount: u64,
    /// Nonce that re-derives the pool's delegated authority for this record.
    pub bump: u8,
    /// Reward accrued so far; it never decreases.
    pub reward: u64,
    /// Time of the last change of balance or accrual, in seconds.
    pub last_staked_time: i64,
}

/// The single rate configuration, owned by one administrator.
#[derive(Clone, Copy, Debug)]
pub struct AdminAccount {
    /// The identity that may change the rates; set at creation.
    pub admin: Identity,
    /// Reward units per staked unit per second.
    pub reward_rate: u64,
    /// Percentage applied on early withdrawal.
    pub penalty_rate: u64,
}

/// Emitted when units were staked.
#[derive(Clone, Copy, Debug)]
pub struct StakeEvent {
    pub staker: Identity,
    pub amount: u64,
}

/// Emitted when units were withdrawn.
#[derive(Clone, Copy, Debug)]
pub struct UnstakeEvent {
    pub staker: Identity,
    pub amount: u64,
}

/// Who authorizes a transfer.
#[derive(Clone, Copy, Debug)]
pub enum Authority {
    /// A participant who signs for their own account.
    Signer(Identity),
    /// The pool, through the authority derived from the `b"staking"` seed,
    /// the record's owner and the record's nonce.
    Delegated { owner: Identity, bump: u8 },
}

/// A movement of `amount` units from one token account to another, for the
/// value-transfer service to perform.
#[derive(Clone, Copy, Debug)]
pub struct TransferOrder {
    pub from: Identity,
    pub to: Identity,
    pub authority: Authority,
    pub amount: u64,
}

} // verus!
