//! What a withdrawal costs.

use vstd::prelude::*;
use crate::accounts::{TokenQuestState, BASIS_POINTS_DENOMINATOR};
use crate::error::CustomError;

verus! {

/// How a stake is divided when it leaves the vault.
#[derive(Clone, Copy, Debug, PartialEq, Eq, Structural)]
pub struct Settlement {
    /// What the depositor receives.
    pub payout: u64,
    /// What the fee account receives.
    pub fee: u64,
}

/// The fee on `amount` at `basis_points` hundredths of a percent, rounded down.
pub open spec fn fee_amount(amount: int, basis_points: int) -> int {
    (amount * basis_points) / (BASIS_POINTS_DENOMINATOR as int)
}

/// How `amount` is divided under `state`, or why it cannot be.
///
/// With the fee switched off the depositor receives everything. With it
/// switched on, the product of amount and rate must fit in 64 bits and the fee
/// must not exceed the amount; otherwise the division is refused.
pub open spec fn settlement(state: TokenQuestState, amount: u64) -> Result<
    Settlement,
    CustomError,
> {
    let fee = fee_amount(amount as int, state.fee_percentage as int);
    if !state.user_tax_on_withdraw {
        Ok(Settlement { payout: amount, fee: 0 })
    } else if amount * state.fee_percentage > u64::MAX {
        Err(CustomError::ArithmeticOverflow)
    } else if fee > amount {
        Err(CustomError::ArithmeticOverflow)
    } else {
        Ok(Settlement { payout: (amount - fee) as u64, fee: fee as u64 })
    }
}

/// A fee at a rate of at most the whole never exceeds the amount it is charged on.
pub proof fn lemma_fee_within_amount(amount: int, basis_points: int)
    requires
        0 <= amount,
        0 <= basis_points <= BASIS_POINTS_DENOMINATOR,
    ensures
        0 <= fee_amount(amount, basis_points) <= amount,
{
    assert(0 <= amount * basis_points <= amount * 10_000) by (nonlinear_arith)
        requires
            0 <= amount,
            0 <= basis_points <= 10_000,
    ;
}

/// Under a sound configuration a stake can be divided unless the product of
/// amount and rate leaves 64 bits, and payout and fee add up to the stake.
pub proof fn lemma_settlement_sound(state: TokenQuestState, amount: u64)
    requires
        state.wf(),
    ensures
        settlement(state, amount) is Err <==> state.user_tax_on_withdraw && amount
            * state.fee_percentage > u64::MAX,
        settlement(state, amount) matches Ok(s) ==> s.payout + s.fee == amount,
{
    lemma_fee_within_amount(amount as int, state.fee_percentage as int);
}

/// Divides `amount` into payout and fee under `state`.
///
/// The fee is `amount * fee_percentage / 10_000`, rounded down, when
/// withdrawals are charged, and nothing otherwise.
pub fn settle(state: &TokenQuestState, amount: u64) -> (result: Result<Settlement, CustomError>)
    ensures
        result == settlement(*state, amount),
{
    if !state.user_tax_on_withdraw {
        return Ok(Settlement { payout: amount, fee: 0 });
    }
    let rate: u64 = state.fee_percentage as u64;
    match amount.checked_mul(rate) {
        None => Err(CustomError::ArithmeticOverflow),
        Some(product) => {
            let fee: u64 = product / BASIS_POINTS_DENOMINATOR;
            match amount.checked_sub(fee) {
                None => Err(CustomError::ArithmeticOverflow),
                Some(payout) => Ok(Settlement { payout, fee }),
            }
        },
    }
}

} // verus!
