//! The failures an operation can report.

use vstd::prelude::*;

verus! {

/// Why an operation was refused.
///
/// Every failure is reported before anything is changed: an operation that
/// returns one of these leaves all accounts as they were.
#[derive(Clone, Copy, Debug, PartialEq, Eq, Structural)]
pub enum CustomError {
    /// A deposit of zero was asked for.
    InvalidAmount,
    /// The caller is not the depositor of the stake, or not the administrator.
    UnauthorizedUser,
    /// The stake has been paid out before.
    AlreadyWithdrawn,
    /// The staking and locking periods have not both elapsed.
    LockNotEnded,
    /// The vault holds less than the stake it owes. Fatal: the books are broken.
    InsufficientVaultBalance,
    /// The fee account is empty.
    NoFeesToWithdraw,
    /// No stake is recorded for this depositor and asset.
    UnknownStake,
    /// The fee could not be computed in 64 bits. Fatal.
    ArithmeticOverflow,
    /// The depositor already has a stake of this asset that was not paid out.
    DuplicateActiveStake,
    /// The balances involved cannot carry out the movement of value.
    TransferFailure,
    /// The configuration exists already.
    AlreadyInitialized,
}

impl CustomError {
    /// Whether the failure shows a broken internal invariant rather than a
    /// request that a caller may correct.
    pub open spec fn fatal(self) -> bool {
        self is InsufficientVaultBalance || self is ArithmeticOverflow
    }

    /// Whether the failure shows a broken internal invariant rather than a
    /// request that a caller may correct.
    pub fn is_fatal(&self) -> (fatal: bool)
        ensures
            fatal == self.fatal(),
    {
        match self {
            CustomError::InsufficientVaultBalance => true,
            CustomError::ArithmeticOverflow => true,
            _ => false,
        }
    }
    /// The sentence that tells a caller what went wrong.
    pub open spec fn text(self) -> Seq<char> {
        match self {
            CustomError::InvalidAmount => "Invalid deposit amount."@,
            CustomError::UnauthorizedUser => "Unauthorized user."@,
            CustomError::AlreadyWithdrawn => "Stake already withdrawn."@,
            CustomError::LockNotEnded => "Lock period has not ended yet."@,
            CustomError::InsufficientVaultBalance => "Vault does not have enough SOL."@,
            CustomError::NoFeesToWithdraw => "No fees available to withdraw."@,
            CustomError::UnknownStake => "No stake recorded for this depositor."@,
            CustomError::ArithmeticOverflow => "Fee does not fit in 64 bits."@,
            CustomError::DuplicateActiveStake => "Depositor already holds a stake."@,
            CustomError::TransferFailure => "Transfer could not be carried out."@,
            CustomError::AlreadyInitialized => "Configuration exists already."@,
        }
    }

    /// The sentence that tells a caller what went wrong.
    pub fn message(&self) -> (text: String)
        ensures
            text@ == self.text(),
    {
        match self {
            CustomError::InvalidAmount => "Invalid deposit amount.".to_owned(),
            CustomError::UnauthorizedUser => "Unauthorized user.".to_owned(),
            CustomError::AlreadyWithdrawn => "Stake already withdrawn.".to_owned(),
            CustomError::LockNotEnded => "Lock period has not ended yet.".to_owned(),
            CustomError::InsufficientVaultBalance => "Vault does not have enough SOL.".to_owned(),
            CustomError::NoFeesToWithdraw => "No fees available to withdraw.".to_owned(),
            CustomError::UnknownStake => "No stake recorded for this depositor.".to_owned(),
            CustomError::ArithmeticOverflow => "Fee does not fit in 64 bits.".to_owned(),
            CustomError::DuplicateActiveStake => "Depositor already holds a stake.".to_owned(),
            CustomError::TransferFailure => "Transfer could not be carried out.".to_owned(),
            CustomError::AlreadyInitialized => "Configuration exists already.".to_owned(),
        }
    }
}

} // verus!
