use staking_token::admin::{initialize_admin, set_penalty_rate, set_reward_rate};
use staking_token::context::{
    DistributeRewards, Initialize, InitializeAdmin, SetAdmin, Stake, Unstake,
};
use staking_token::engine::{
    distribute_rewards, initialize, stake, stake_transfer, unstake, unstake_transfer,
    FIXED_REWARD_RATE_PER_SECOND, MIN_STAKING_PERIOD,
};
use staking_token::error::{ErrorCode, TransferError};
use staking_token::identity::Identity;
use staking_token::state::{Authority, StakingAccount};

const DAY: i64 = 24 * 60 * 60;
const T0: i64 = 1_700_000_000;

fn owner() -> Identity {
    Identity::new([7u8; 32])
}

fn stranger() -> Identity {
    let mut b = [7u8; 32];
    b[31] = 8;
    Identity::new(b)
}

fn user_ata() -> Identity {
    Identity::new([1u8; 32])
}

fn pool_ata() -> Identity {
    Identity::new([2u8; 32])
}

fn record(amount: u64, reward: u64, last: i64) -> StakingAccount {
    StakingAccount { staker: owner(), amount, bump: 254, reward, last_staked_time: last }
}

fn stake_ctx(who: Identity, now: i64) -> Stake {
    Stake { staker: who, user_token_account: user_ata(), staking_token_account: pool_ata(), now }
}

fn unstake_ctx(who: Identity, now: i64) -> Unstake {
    Unstake { staker: who, user_token_account: user_ata(), staking_token_account: pool_ata(), now }
}

fn same(a: &StakingAccount, b: &StakingAccount) -> bool {
    a.staker.bytes == b.staker.bytes
        && a.amount == b.amount
        && a.bump == b.bump
        && a.reward == b.reward
        && a.last_staked_time == b.last_staked_time
}

#[test]
fn scenario_stake_then_two_withdrawals() {
    let mut acct = record(1000, 0, T0);
    stake(&mut acct, &stake_ctx(owner(), T0), 500, Ok(())).unwrap();
    assert_eq!(acct.amount, 1500);
    assert_eq!(acct.last_staked_time, T0);
    unstake(&mut acct, &unstake_ctx(owner(), T0 + DAY), 200, Ok(())).unwrap();
    assert_eq!(acct.amount, 1280);
    unstake(&mut acct, &unstake_ctx(owner(), T0 + 8 * DAY), 100, Ok(())).unwrap();
    assert_eq!(acct.amount, 1180);
}

#[test]
fn initialize_sets_empty_record() {
    let acct = initialize(&Initialize { staker: owner(), bump: 9, now: T0 });
    assert!(same(&acct, &StakingAccount {
        staker: owner(),
        amount: 0,
        bump: 9,
        reward: 0,
        last_staked_time: T0,
    }));
}

#[test]
fn stake_adds_amount_and_stamps_time() {
    let mut acct = record(40, 3, T0);
    let ev = stake(&mut acct, &stake_ctx(owner(), T0 + 5), 60, Ok(())).unwrap();
    assert_eq!(acct.amount, 100);
    assert_eq!(acct.last_staked_time, T0 + 5);
    assert_eq!(acct.reward, 3);
    assert_eq!(ev.amount, 60);
    assert_eq!(ev.staker.bytes, owner().bytes);
}

#[test]
fn stake_transfer_moves_from_user_to_pool() {
    let acct = record(0, 0, T0);
    let order = stake_transfer(&acct, &stake_ctx(owner(), T0), 25).unwrap();
    assert_eq!(order.from.bytes, user_ata().bytes);
    assert_eq!(order.to.bytes, pool_ata().bytes);
    assert_eq!(order.amount, 25);
    assert!(matches!(order.authority, Authority::Signer(s) if s.bytes == owner().bytes));
}

#[test]
fn stake_zero_is_refused() {
    let mut acct = record(10, 0, T0);
    let r = stake(&mut acct, &stake_ctx(owner(), T0 + 1), 0, Ok(()));
    assert_eq!(r.unwrap_err(), ErrorCode::InvalidAmount);
    assert!(same(&acct, &record(10, 0, T0)));
}

#[test]
fn stake_overflow_is_refused() {
    let mut acct = record(u64::MAX - 1, 0, T0);
    let r = stake(&mut acct, &stake_ctx(owner(), T0), 2, Ok(()));
    assert_eq!(r.unwrap_err(), ErrorCode::ArithmeticOverflow);
    assert!(same(&acct, &record(u64::MAX - 1, 0, T0)));
    stake(&mut acct, &stake_ctx(owner(), T0), 1, Ok(())).unwrap();
    assert_eq!(acct.amount, u64::MAX);
}

#[test]
fn failed_transfer_leaves_record_unchanged() {
    let mut acct = record(10, 0, T0);
    let r = stake(&mut acct, &stake_ctx(owner(), T0 + 1), 5, Err(TransferError { code: 17 }));
    assert_eq!(r.unwrap_err(), ErrorCode::TransferFailed(17));
    assert!(same(&acct, &record(10, 0, T0)));
    let r = unstake(&mut acct, &unstake_ctx(owner(), T0 + 1), 5, Err(TransferError { code: 3 }));
    assert_eq!(r.unwrap_err(), ErrorCode::TransferFailed(3));
    assert!(same(&acct, &record(10, 0, T0)));
}

#[test]
fn unstake_after_period_has_no_penalty() {
    let mut acct = record(1000, 0, T0);
    let ev = unstake(&mut acct, &unstake_ctx(owner(), T0 + MIN_STAKING_PERIOD), 300, Ok(())).unwrap();
    assert_eq!(acct.amount, 700);
    assert_eq!(ev.amount, 300);
    assert_eq!(acct.last_staked_time, T0);
}

#[test]
fn unstake_within_period_forfeits_a_tenth() {
    let mut acct = record(1000, 0, T0);
    unstake(&mut acct, &unstake_ctx(owner(), T0 + MIN_STAKING_PERIOD - 1), 305, Ok(())).unwrap();
    assert_eq!(acct.amount, 1000 - 305 - 30);
}

#[test]
fn unstake_whole_balance_after_period() {
    let mut acct = record(500, 0, T0);
    unstake(&mut acct, &unstake_ctx(owner(), T0 + 8 * DAY), 500, Ok(())).unwrap();
    assert_eq!(acct.amount, 0);
}

#[test]
fn unstake_more_than_balance_is_insufficient() {
    let mut acct = record(100, 0, T0);
    let r = unstake(&mut acct, &unstake_ctx(owner(), T0 + 30 * DAY), 101, Ok(()));
    assert_eq!(r.unwrap_err(), ErrorCode::InsufficientFunds);
    assert!(same(&acct, &record(100, 0, T0)));
}

#[test]
fn unstake_penalty_beyond_balance_is_insufficient() {
    let mut acct = record(100, 0, T0);
    let r = unstake(&mut acct, &unstake_ctx(owner(), T0 + DAY), 100, Ok(()));
    assert_eq!(r.unwrap_err(), ErrorCode::InsufficientFunds);
    assert!(same(&acct, &record(100, 0, T0)));
    unstake(&mut acct, &unstake_ctx(owner(), T0 + DAY), 90, Ok(())).unwrap();
    assert_eq!(acct.amount, 1);
}

#[test]
fn unstake_zero_is_refused() {
    let mut acct = record(100, 0, T0);
    let r = unstake(&mut acct, &unstake_ctx(owner(), T0), 0, Ok(()));
    assert_eq!(r.unwrap_err(), ErrorCode::InvalidAmount);
}

#[test]
fn unstake_transfer_pays_full_amount_from_pool() {
    let acct = record(1000, 0, T0);
    let order = unstake_transfer(&acct, &unstake_ctx(owner(), T0 + DAY), 200).unwrap();
    assert_eq!(order.from.bytes, pool_ata().bytes);
    assert_eq!(order.to.bytes, user_ata().bytes);
    assert_eq!(order.amount, 200);
    assert!(matches!(
        order.authority,
        Authority::Delegated { owner: o, bump: 254 } if o.bytes == owner().bytes
    ));
    let r = unstake_transfer(&acct, &unstake_ctx(owner(), T0 + DAY), 1000);
    assert_eq!(r.unwrap_err(), ErrorCode::InsufficientFunds);
}

#[test]
fn rewards_accrue_amount_times_duration_times_rate() {
    let mut acct = record(1180, 5, T0);
    let ctx = DistributeRewards { staker: owner(), now: T0 + 9 * DAY, reward_rate: 3 };
    let gained = distribute_rewards(&mut acct, &ctx).unwrap();
    assert_eq!(gained, 1180 * 9 * 86400 * 3);
    assert_eq!(acct.reward, 5 + 1180 * 9 * 86400 * 3);
    assert_eq!(acct.last_staked_time, T0 + 9 * DAY);
    assert_eq!(acct.amount, 1180);
}

#[test]
fn rewards_at_fixed_rate_never_decrease() {
    let mut acct = record(0, 42, T0);
    let ctx = DistributeRewards {
        staker: owner(),
        now: T0 + 100,
        reward_rate: FIXED_REWARD_RATE_PER_SECOND,
    };
    assert_eq!(distribute_rewards(&mut acct, &ctx).unwrap(), 0);
    assert_eq!(acct.reward, 42);
    let mut acct = record(10, 42, T0);
    distribute_rewards(&mut acct, &ctx).unwrap();
    assert_eq!(acct.reward, 42 + 1000);
    let ctx = DistributeRewards { staker: owner(), now: T0 + 100, reward_rate: 0 };
    distribute_rewards(&mut acct, &ctx).unwrap();
    assert_eq!(acct.reward, 1042);
}

#[test]
fn rewards_overflow_is_refused() {
    let mut acct = record(u64::MAX, 0, T0);
    let ctx = DistributeRewards { staker: owner(), now: T0 + 2, reward_rate: 1 };
    assert_eq!(distribute_rewards(&mut acct, &ctx).unwrap_err(), ErrorCode::ArithmeticOverflow);
    assert!(same(&acct, &record(u64::MAX, 0, T0)));
    let mut acct = record(2, u64::MAX - 3, T0);
    assert_eq!(distribute_rewards(&mut acct, &ctx).unwrap_err(), ErrorCode::ArithmeticOverflow);
    let mut acct = record(u64::MAX, 0, T0);
    let ctx = DistributeRewards { staker: owner(), now: T0 + 2, reward_rate: 0 };
    assert_eq!(distribute_rewards(&mut acct, &ctx).unwrap(), 0);
}

#[test]
fn non_owner_is_unauthorized_everywhere() {
    let mut acct = record(1000, 7, T0);
    let r = stake(&mut acct, &stake_ctx(stranger(), T0 + 1), 10, Ok(()));
    assert_eq!(r.unwrap_err(), ErrorCode::Unauthorized);
    let r = unstake(&mut acct, &unstake_ctx(stranger(), T0 + 1), 10, Ok(()));
    assert_eq!(r.unwrap_err(), ErrorCode::Unauthorized);
    let ctx = DistributeRewards { staker: stranger(), now: T0 + 10, reward_rate: 1 };
    assert_eq!(distribute_rewards(&mut acct, &ctx).unwrap_err(), ErrorCode::Unauthorized);
    assert!(same(&acct, &record(1000, 7, T0)));
}

#[test]
fn admin_defaults_and_setters() {
    let admin = owner();
    let mut cfg = initialize_admin(&InitializeAdmin { admin });
    assert_eq!(cfg.admin.bytes, admin.bytes);
    assert_eq!(cfg.reward_rate, 1);
    assert_eq!(cfg.penalty_rate, 10);
    set_reward_rate(&mut cfg, &SetAdmin { admin }, 9).unwrap();
    set_penalty_rate(&mut cfg, &SetAdmin { admin }, 25).unwrap();
    assert_eq!(cfg.reward_rate, 9);
    assert_eq!(cfg.penalty_rate, 25);
}

#[test]
fn non_admin_cannot_change_rates() {
    let mut cfg = initialize_admin(&InitializeAdmin { admin: owner() });
    let other = SetAdmin { admin: stranger() };
    assert_eq!(set_reward_rate(&mut cfg, &other, 9).unwrap_err(), ErrorCode::Unauthorized);
    assert_eq!(set_penalty_rate(&mut cfg, &other, 9).unwrap_err(), ErrorCode::Unauthorized);
    assert_eq!(cfg.reward_rate, 1);
    assert_eq!(cfg.penalty_rate, 10);
}

#[test]
fn identity_comparison_reads_every_byte() {
    assert!(owner().same_as(&owner()));
    assert!(!owner().same_as(&stranger()));
    let mut b = [7u8; 32];
    b[0] = 0;
    assert!(!owner().same_as(&Identity::new(b)));
}
