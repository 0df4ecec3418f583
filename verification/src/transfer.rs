//! Moving value between balances.
//!
//! A movement names the asset it carries. It can leave a balance only if that
//! balance is counted in the same asset and covers the amount, and it can
//! arrive at a balance only if that balance is counted in the same asset and
//! has room for the amount.

use vstd::prelude::*;
use crate::error::CustomError;
use crate::identity::AssetId;

verus! {

/// Whether `amount` of `asset` can leave a balance of `balance` counted in `held`.
pub open spec fn can_debit(held: AssetId, balance: u64, asset: AssetId, amount: u64) -> bool {
    held == asset && amount <= balance
}

/// Whether `amount` of `asset` can arrive at a balance of `balance` counted in `held`.
pub open spec fn can_credit(held: AssetId, balance: u64, asset: AssetId, amount: u64) -> bool {
    held == asset && balance + amount <= u64::MAX
}

/// What is left of a balance after `amount` of `asset` has left it.
pub open spec fn debited(held: AssetId, balance: u64, asset: AssetId, amount: u64) -> Result<
    u64,
    CustomError,
> {
    if can_debit(held, balance, asset, amount) {
        Ok((balance - amount) as u64)
    } else {
        Err(CustomError::TransferFailure)
    }
}

/// What a balance holds after `amount` of `asset` has arrived at it.
pub open spec fn credited(held: AssetId, balance: u64, asset: AssetId, amount: u64) -> Result<
    u64,
    CustomError,
> {
    if can_credit(held, balance, asset, amount) {
        Ok((balance + amount) as u64)
    } else {
        Err(CustomError::TransferFailure)
    }
}

/// Takes `amount` of `asset` out of a balance of `balance` counted in `held`
/// and returns what is left, or refuses if the asset differs or the balance
/// does not cover the amount.
pub fn debit(held: AssetId, balance: u64, asset: AssetId, amount: u64) -> (result: Result<
    u64,
    CustomError,
>)
    ensures
        result == debited(held, balance, asset, amount),
{
    if held == asset && amount <= balance {
        Ok(balance - amount)
    } else {
        Err(CustomError::TransferFailure)
    }
}

/// Adds `amount` of `asset` to a balance of `balance` counted in `held` and
/// returns the sum, or refuses if the asset differs or the sum does not fit.
pub fn credit(held: AssetId, balance: u64, asset: AssetId, amount: u64) -> (result: Result<
    u64,
    CustomError,
>)
    ensures
        result == credited(held, balance, asset, amount),
{
    if held == asset {
        match balance.checked_add(amount) {
            Some(sum) => Ok(sum),
            None => Err(CustomError::TransferFailure),
        }
    } else {
        Err(CustomError::TransferFailure)
    }
}

} // verus!
