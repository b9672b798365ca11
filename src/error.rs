use vstd::prelude::*;

verus! {

/// Why an operation on the ledger or the configuration was refused.
#[derive(Clone, Copy, Debug, PartialEq, Eq, Structural)]
pub enum ErrorCode {
    /// The withdrawal, with its early-withdrawal penalty, exceeds the staked balance.
    InsufficientFunds,
    /// The caller is not the record's owner, or not the configuration's administrator.
    Unauthorized,
    /// A record or the configuration was initialized twice.
    AlreadyExists,
    /// The value transfer reported a failure, whose code is kept.
    TransferFailed(u32),
    /// An accrual or balance computation would leave the range of `u64`.
    ArithmeticOverflow,
    /// A stake or unstake of zero units.
    InvalidAmount,
}

/// A failure reported by the value-transfer service.
#[derive(Clone, Copy, Debug, PartialEq, Eq, Structural)]
pub struct TransferError {
    pub code: u32,
}

} // verus!
