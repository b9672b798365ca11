use vstd::prelude::*;
use crate::context::{DistributeRewards, Initialize, Stake, Unstake};
use crate::error::{ErrorCode, TransferError};
use crate::state::{Authority, StakeEvent, StakingAccount, TransferOrder, UnstakeEvent};

verus! {

/// Seconds a stake must be held before it can be withdrawn without penalty.
pub const MIN_STAKING_PERIOD: i64 = 7 * 24 * 60 * 60;

/// The reward rate of the accrual as first deployed, per staked unit and second.
pub const FIXED_REWARD_RATE_PER_SECOND: u64 = 1;

/// Whether a withdrawal at `now` falls inside the holding period that began
/// at `last`.
pub open spec fn within_holding_period(last: i64, now: i64) -> bool {
    now - last < MIN_STAKING_PERIOD
}

/// The early-withdrawal penalty on withdrawing `amount` at `now`: a tenth of
/// the amount, rounded down, inside the holding period, and nothing after it.
pub open spec fn unstake_penalty(last: i64, now: i64, amount: u64) -> int {
    if within_holding_period(last, now) {
        amount as int / 10
    } else {
        0
    }
}

/// What a withdrawal of `amount` at `now` takes off the staked balance.
pub open spec fn unstake_debit(last: i64, now: i64, amount: u64) -> int {
    amount + unstake_penalty(last, now, amount)
}

/// The error, if any, on which a withdrawal is refused before any transfer.
pub open spec fn unstake_rejection(account: StakingAccount, ctx: Unstake, amount: u64) -> Option<
    ErrorCode,
> {
    if ctx.staker@ != account.staker@ {
        Some(ErrorCode::Unauthorized)
    } else if amount == 0 {
        Some(ErrorCode::InvalidAmount)
    } else if unstake_debit(account.last_staked_time, ctx.now, amount) > account.amount {
        Some(ErrorCode::InsufficientFunds)
    } else {
        None
    }
}

/// The record after a withdrawal of `amount` at `now`.
pub open spec fn unstaked(account: StakingAccount, now: i64, amount: u64) -> StakingAccount {
    StakingAccount {
        amount: (account.amount - unstake_debit(account.last_staked_time, now, amount)) as u64,
        ..account
    }
}

/// The penalty of a withdrawal, computed without overflow.
fn penalty_of(last: i64, now: i64, amount: u64) -> (r: u64)
    ensures
        r == unstake_penalty(last, now, amount),
{
    let elapsed: i128 = now as i128 - last as i128;
    if elapsed < MIN_STAKING_PERIOD as i128 {
        amount / 10
    } else {
        0
    }
}

/// Checks a withdrawal, and names the transfer that pays it out: the full
/// `amount` goes from the pool to the participant's account, under the
/// pool's delegated authority, whatever the penalty.
pub fn unstake_transfer(account: &StakingAccount, ctx: &Unstake, amount: u64) -> (r: Result<
    TransferOrder,
    ErrorCode,
>)
    ensures
        match unstake_rejection(*account, *ctx, amount) {
            Some(e) => r == Err::<TransferOrder, ErrorCode>(e),
            None => r == Ok::<TransferOrder, ErrorCode>(
                TransferOrder {
                    from: ctx.staking_token_account,
                    to: ctx.user_token_account,
                    authority: Authority::Delegated { owner: account.staker, bump: account.bump },
                    amount,
                },
            ),
        },
{
    match check_unstake(account, ctx, amount) {
        Err(e) => Err(e),
        Ok(_) => Ok(
            TransferOrder {
                from: ctx.staking_token_account,
                to: ctx.user_token_account,
                authority: Authority::Delegated { owner: account.staker, bump: account.bump },
                amount,
            },
        ),
    }
}

/// Checks a withdrawal and returns what it takes off the balance.
fn check_unstake(account: &StakingAccount, ctx: &Unstake, amount: u64) -> (r: Result<
    u64,
    ErrorCode,
>)
    ensures
        match unstake_rejection(*account, *ctx, amount) {
            Some(e) => r == Err::<u64, ErrorCode>(e),
            None => r == Ok::<u64, ErrorCode>(
                unstake_debit(account.last_staked_time, ctx.now, amount) as u64,
            ),
        },
{
    if !ctx.staker.same_as(&account.staker) {
        return Err(ErrorCode::Unauthorized);
    }
    if amount == 0 {
        return Err(ErrorCode::InvalidAmount);
    }
    if amount > account.amount {
        return Err(ErrorCode::InsufficientFunds);
    }
    let penalty = penalty_of(account.last_staked_time, ctx.now, amount);
    if penalty > account.amount - amount {
        return Err(ErrorCode::InsufficientFunds);
    }
    Ok(amount + penalty)
}

/// Withdraws `amount` from the record, given the outcome of the transfer that
/// `unstake_transfer` named. Inside the holding period a tenth of the amount,
/// rounded down, is forfeited on top of it. On any error the record is left
/// as it was.
pub fn unstake(
    account: &mut StakingAccount,
    ctx: &Unstake,
    amount: u64,
    transfer: Result<(), TransferError>,
) -> (r: Result<UnstakeEvent, ErrorCode>)
    ensures
        match unstake_rejection(*old(account), *ctx, amount) {
            Some(e) => r == Err::<UnstakeEvent, ErrorCode>(e) && *final(account) == *old(account),
            None => match transfer {
                Err(t) => r == Err::<UnstakeEvent, ErrorCode>(ErrorCode::TransferFailed(t.code))
                    && *final(account) == *old(account),
                Ok(_) => r == Ok::<UnstakeEvent, ErrorCode>(
                    UnstakeEvent { staker: ctx.staker, amount },
                ) && *final(account) == unstaked(*old(account), ctx.now, amount),
            },
        },
{
    let debit = match check_unstake(account, ctx, amount) {
        Err(e) => {
            return Err(e);
        },
        Ok(d) => d,
    };
    match transfer {
        Err(t) => Err(ErrorCode::TransferFailed(t.code)),
        Ok(_) => {
            account.amount = account.amount - debit;
            Ok(UnstakeEvent { staker: ctx.staker, amount })
        },
    }
}

/// A new record for the signer: nothing staked, no reward, stamped `now`.
pub fn initialize(ctx: &Initialize) -> (r: StakingAccount)
    ensures
        r == (StakingAccount {
            staker: ctx.staker,
            amount: 0,
            bump: ctx.bump,
            reward: 0,
            last_staked_time: ctx.now,
        }),
{
    StakingAccount { staker: ctx.staker, amount: 0, bump: ctx.bump, reward: 0, last_staked_time: ctx.now }
}

/// The error, if any, on which a deposit is refused before any transfer.
pub open spec fn stake_rejection(account: StakingAccount, ctx: Stake, amount: u64) -> Option<
    ErrorCode,
> {
    if ctx.staker@ != account.staker@ {
        Some(ErrorCode::Unauthorized)
    } else if amount == 0 {
        Some(ErrorCode::InvalidAmount)
    } else if account.amount + amount > u64::MAX {
        Some(ErrorCode::ArithmeticOverflow)
    } else {
        None
    }
}

/// The record after a deposit of `amount` at `now`.
pub open spec fn staked(account: StakingAccount, now: i64, amount: u64) -> StakingAccount {
    StakingAccount { amount: (account.amount + amount) as u64, last_staked_time: now, ..account }
}

/// Checks a deposit.
fn check_stake(account: &StakingAccount, ctx: &Stake, amount: u64) -> (r: Result<(), ErrorCode>)
    ensures
        match stake_rejection(*account, *ctx, amount) {
            Some(e) => r == Err::<(), ErrorCode>(e),
            None => r == Ok::<(), ErrorCode>(()),
        },
{
    if !ctx.staker.same_as(&account.staker) {
        return Err(ErrorCode::Unauthorized);
    }
    if amount == 0 {
        return Err(ErrorCode::InvalidAmount);
    }
    if amount > u64::MAX - account.amount {
        return Err(ErrorCode::ArithmeticOverflow);
    }
    Ok(())
}

/// Checks a deposit, and names the transfer that makes it: `amount` goes
/// from the participant's account to the pool, signed by the participant.
pub fn stake_transfer(account: &StakingAccount, ctx: &Stake, amount: u64) -> (r: Result<
    TransferOrder,
    ErrorCode,
>)
    ensures
        match stake_rejection(*account, *ctx, amount) {
            Some(e) => r == Err::<TransferOrder, ErrorCode>(e),
            None => r == Ok::<TransferOrder, ErrorCode>(
                TransferOrder {
                    from: ctx.user_token_account,
                    to: ctx.staking_token_account,
                    authority: Authority::Signer(ctx.staker),
                    amount,
                },
            ),
        },
{
    match check_stake(account, ctx, amount) {
        Err(e) => Err(e),
        Ok(_) => Ok(
            TransferOrder {
                from: ctx.user_token_account,
                to: ctx.staking_token_account,
                authority: Authority::Signer(ctx.staker),
                amount,
            },
        ),
    }
}

/// Deposits `amount` into the record, given the outcome of the transfer that
/// `stake_transfer` named: the balance grows by exactly `amount` and the
/// record is stamped `now`. On any error the record is left as it was.
pub fn stake(
    account: &mut StakingAccount,
    ctx: &Stake,
    amount: u64,
    transfer: Result<(), TransferError>,
) -> (r: Result<StakeEvent, ErrorCode>)
    ensures
        match stake_rejection(*old(account), *ctx, amount) {
            Some(e) => r == Err::<StakeEvent, ErrorCode>(e) && *final(account) == *old(account),
            None => match transfer {
                Err(t) => r == Err::<StakeEvent, ErrorCode>(ErrorCode::TransferFailed(t.code))
                    && *final(account) == *old(account),
                Ok(_) => r == Ok::<StakeEvent, ErrorCode>(
                    StakeEvent { staker: ctx.staker, amount },
                ) && *final(account) == staked(*old(account), ctx.now, amount),
            },
        },
{
    match check_stake(account, ctx, amount) {
        Err(e) => {
            return Err(e);
        },
        Ok(_) => {},
    }
    match transfer {
        Err(t) => Err(ErrorCode::TransferFailed(t.code)),
        Ok(_) => {
            account.amount = account.amount + amount;
            account.last_staked_time = ctx.now;
            Ok(StakeEvent { staker: ctx.staker, amount })
        },
    }
}

/// The reward that `amount` staked units earn over `duration` seconds at `rate`.
pub open spec fn accrued(amount: u64, duration: int, rate: u64) -> int {
    amount * duration * rate
}

/// The error, if any, on which an accrual is refused.
pub open spec fn rewards_rejection(account: StakingAccount, ctx: DistributeRewards) -> Option<
    ErrorCode,
> {
    if ctx.staker@ != account.staker@ {
        Some(ErrorCode::Unauthorized)
    } else if account.reward + accrued(
        account.amount,
        ctx.now - account.last_staked_time,
        ctx.reward_rate,
    ) > u64::MAX {
        Some(ErrorCode::ArithmeticOverflow)
    } else {
        None
    }
}

/// Accrues reward on the record for the time since its last update: the
/// staked amount times the elapsed seconds times the rate is added to the
/// reward, and the record is stamped `now`. On any error the record is left
/// as it was; the time never runs backwards.
pub fn distribute_rewards(account: &mut StakingAccount, ctx: &DistributeRewards) -> (r: Result<
    u64,
    ErrorCode,
>)
    requires
        old(account).last_staked_time <= ctx.now,
    ensures
        match rewards_rejection(*old(account), *ctx) {
            Some(e) => r == Err::<u64, ErrorCode>(e) && *final(account) == *old(account),
            None => {
                let gained = accrued(
                    old(account).amount,
                    ctx.now - old(account).last_staked_time,
                    ctx.reward_rate,
                );
                &&& r == Ok::<u64, ErrorCode>(gained as u64)
                &&& *final(account) == (StakingAccount {
                    reward: (old(account).reward + gained) as u64,
                    last_staked_time: ctx.now,
                    ..*old(account)
                })
            },
        },
        final(account).reward >= old(account).reward,
{
    if !ctx.staker.same_as(&account.staker) {
        return Err(ErrorCode::Unauthorized);
    }
    let elapsed: i128 = ctx.now as i128 - account.last_staked_time as i128;
    assert(0 <= elapsed <= u64::MAX);
    let duration: u64 = elapsed as u64;
    let reward: u64 = if ctx.reward_rate == 0 {
        0
    } else {
        match account.amount.checked_mul(duration) {
            None => {
                proof {
                    lemma_product_overflow(account.amount, duration, ctx.reward_rate, account.reward);
                }
                return Err(ErrorCode::ArithmeticOverflow);
            },
            Some(p) => match p.checked_mul(ctx.reward_rate) {
                None => {
                    return Err(ErrorCode::ArithmeticOverflow);
                },
                Some(q) => q,
            },
        }
    };
    if reward > u64::MAX - account.reward {
        return Err(ErrorCode::ArithmeticOverflow);
    }
    account.reward = account.reward + reward;
    account.last_staked_time = ctx.now;
    Ok(reward)
}

/// When `amount * duration` overflows and the rate is positive, the whole
/// accrual overflows too.
proof fn lemma_product_overflow(amount: u64, duration: u64, rate: u64, reward: u64)
    requires
        amount * duration > u64::MAX,
    ensures
        rate > 0 ==> reward + accrued(amount, duration as int, rate) > u64::MAX,
{
    if rate > 0 {
        assert(amount * duration * rate >= amount * duration) by (nonlinear_arith)
            requires
                rate >= 1,
                amount * duration > u64::MAX,
        ;
    }
}

} // verus!
