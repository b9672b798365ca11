//! Properties of the ledger's transitions, stated over the spec functions
//! that the operations' contracts use.
use vstd::prelude::*;
use crate::context::{DistributeRewards, Stake, Unstake};
use crate::engine::{
    accrued, rewards_rejection, stake_rejection, staked, unstake_rejection, unstaked,
    MIN_STAKING_PERIOD,
};
use crate::error::ErrorCode;
use crate::state::StakingAccount;

verus! {

/// An accepted deposit raises the balance by exactly the deposited amount,
/// stamps the record with the call's time, and changes nothing else.
pub proof fn stake_adds_exactly(account: StakingAccount, ctx: Stake, amount: u64)
    requires
        stake_rejection(account, ctx, amount) is None,
    ensures
        amount > 0,
        staked(account, ctx.now, amount).amount == account.amount + amount,
        staked(account, ctx.now, amount).last_staked_time == ctx.now,
        staked(account, ctx.now, amount).reward == account.reward,
        staked(account, ctx.now, amount).staker == account.staker,
{
}

/// After the holding period, an accepted withdrawal takes exactly the
/// withdrawn amount off the balance, which held at least that much.
pub proof fn unstake_after_holding_period(account: StakingAccount, ctx: Unstake, amount: u64)
    requires
        unstake_rejection(account, ctx, amount) is None,
        ctx.now - account.last_staked_time >= MIN_STAKING_PERIOD,
    ensures
        account.amount >= amount,
        unstaked(account, ctx.now, amount).amount == account.amount - amount,
{
}

/// Inside the holding period, an accepted withdrawal also forfeits a tenth
/// of the amount, rounded down, and the balance never goes below zero.
pub proof fn unstake_within_holding_period(account: StakingAccount, ctx: Unstake, amount: u64)
    requires
        unstake_rejection(account, ctx, amount) is None,
        ctx.now - account.last_staked_time < MIN_STAKING_PERIOD,
    ensures
        account.amount >= amount + amount / 10,
        unstaked(account, ctx.now, amount).amount == account.amount - amount - amount / 10,
{
}

/// The owner's withdrawal of more than the balance is refused for
/// insufficient funds.
pub proof fn unstake_beyond_balance(account: StakingAccount, ctx: Unstake, amount: u64)
    requires
        ctx.staker@ == account.staker@,
        amount > account.amount,
    ensures
        unstake_rejection(account, ctx, amount) == Some(ErrorCode::InsufficientFunds),
{
}

/// Accrual over a forward interval never lowers the reward.
pub proof fn accrual_is_nonnegative(amount: u64, duration: int, rate: u64)
    requires
        duration >= 0,
    ensures
        accrued(amount, duration, rate) >= 0,
{
    assert(amount * duration * rate >= 0) by (nonlinear_arith)
        requires
            duration >= 0,
    ;
}

/// Every operation on a record presented by someone other than its owner is
/// refused as unauthorized.
pub proof fn non_owner_is_refused(
    account: StakingAccount,
    stake_ctx: Stake,
    unstake_ctx: Unstake,
    rewards_ctx: DistributeRewards,
    amount: u64,
)
    requires
        stake_ctx.staker@ != account.staker@,
        unstake_ctx.staker@ != account.staker@,
        rewards_ctx.staker@ != account.staker@,
    ensures
        stake_rejection(account, stake_ctx, amount) == Some(ErrorCode::Unauthorized),
        unstake_rejection(account, unstake_ctx, amount) == Some(ErrorCode::Unauthorized),
        rewards_rejection(account, rewards_ctx) == Some(ErrorCode::Unauthorized),
{
}

} // verus!
