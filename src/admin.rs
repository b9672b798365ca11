use vstd::prelude::*;
use crate::context::{InitializeAdmin, SetAdmin};
use crate::error::ErrorCode;
use crate::state::AdminAccount;

verus! {

/// The reward rate a new configuration starts with.
pub const DEFAULT_REWARD_RATE: u64 = 1;

/// The penalty rate a new configuration starts with.
pub const DEFAULT_PENALTY_RATE: u64 = 10;

/// A new configuration, administered by the signer, with the default rates.
pub fn initialize_admin(ctx: &InitializeAdmin) -> (r: AdminAccount)
    ensures
        r == (AdminAccount {
            admin: ctx.admin,
            reward_rate: DEFAULT_REWARD_RATE,
            penalty_rate: DEFAULT_PENALTY_RATE,
        }),
{
    AdminAccount {
        admin: ctx.admin,
        reward_rate: DEFAULT_REWARD_RATE,
        penalty_rate: DEFAULT_PENALTY_RATE,
    }
}

/// Replaces the reward rate. Only the administrator may; anyone else gets
/// `Unauthorized` and the configuration is left as it was.
pub fn set_reward_rate(admin_account: &mut AdminAccount, ctx: &SetAdmin, new_rate: u64) -> (r:
    Result<(), ErrorCode>)
    ensures
        ctx.admin@ == old(admin_account).admin@ ==> r == Ok::<(), ErrorCode>(())
            && *final(admin_account) == (AdminAccount { reward_rate: new_rate, ..*old(admin_account) }),
        ctx.admin@ != old(admin_account).admin@ ==> r == Err::<(), ErrorCode>(ErrorCode::Unauthorized)
            && *final(admin_account) == *old(admin_account),
{
    if !ctx.admin.same_as(&admin_account.admin) {
        return Err(ErrorCode::Unauthorized);
    }
    admin_account.reward_rate = new_rate;
    Ok(())
}

/// Replaces the penalty rate. Only the administrator may; anyone else gets
/// `Unauthorized` and the configuration is left as it was.
pub fn set_penalty_rate(admin_account: &mut AdminAccount, ctx: &SetAdmin, new_rate: u64) -> (r:
    Result<(), ErrorCode>)
    ensures
        ctx.admin@ == old(admin_account).admin@ ==> r == Ok::<(), ErrorCode>(())
            && *final(admin_account) == (AdminAccount { penalty_rate: new_rate, ..*old(admin_account) }),
        ctx.admin@ != old(admin_account).admin@ ==> r == Err::<(), ErrorCode>(ErrorCode::Unauthorized)
            && *final(admin_account) == *old(admin_account),
{
    if !ctx.admin.same_as(&admin_account.admin) {
        return Err(ErrorCode::Unauthorized);
    }
    admin_account.penalty_rate = new_rate;
    Ok(())
}

} // verus!
