//! The three operations that move value, as decisions on plain accounts.
//!
//! Each processor reads the accounts an operation touches and either returns
//! every account as it stands afterwards or names the reason for refusing.
//! Nothing is written until the whole operation is known to succeed, so a
//! refusal leaves no trace.

use vstd::prelude::*;
use crate::accounts::{FeeAccount, StakeAccount, TokenQuestState, VaultAccount, Wallet};
use crate::error::CustomError;
use crate::fee::{settle, settlement, Settlement};
use crate::identity::{AssetId, Identity};
use crate::lock::{lock_ended, lock_over};
use crate::transfer::{can_credit, can_debit, credit, debit};

verus! {

/// The accounts of a withdrawal after it succeeded.
#[derive(Clone, Copy, Debug, PartialEq, Eq, Structural)]
pub struct Withdrawn {
    /// The depositor's balance, with the payout added.
    pub user: Wallet,
    /// The vault, with the whole stake taken out.
    pub vault: VaultAccount,
    /// The fee account, with the fee added.
    pub fees: FeeAccount,
    /// The stake, marked as paid out.
    pub stake: StakeAccount,
    /// How the stake was divided.
    pub settlement: Settlement,
}

/// The accounts of a deposit after it succeeded.
#[derive(Clone, Copy, Debug, PartialEq, Eq, Structural)]
pub struct Deposited {
    /// The depositor's balance, with the amount taken out.
    pub user: Wallet,
    /// The vault, with the amount added.
    pub vault: VaultAccount,
    /// The record of the new stake.
    pub stake: StakeAccount,
}

/// The accounts of a fee claim after it succeeded.
#[derive(Clone, Copy, Debug, PartialEq, Eq, Structural)]
pub struct Claimed {
    /// The administrator's balance, with the fees added.
    pub admin: Wallet,
    /// The fee account, emptied.
    pub fees: FeeAccount,
    /// How much was claimed.
    pub amount: u64,
}

/// What a withdrawal of `asset` at `now` by the owner of `user` does.
///
/// `slot` is what is recorded for this depositor and asset. The withdrawal is
/// refused, in this order, when there is no such stake, when the stake is
/// another party's, when it was paid out before, when its lock has not ended,
/// when the vault does not cover it, when it cannot be divided into payout and
/// fee, and when the payout or the fee cannot be moved. Otherwise the vault
/// gives up the whole stake, the depositor receives the payout, the fee
/// account receives the fee if there is one, and the stake is marked.
pub open spec fn withdraw_outcome(
    asset: AssetId,
    now: i64,
    state: TokenQuestState,
    user: Wallet,
    slot: Option<StakeAccount>,
    vault: VaultAccount,
    fees: FeeAccount,
) -> Result<Withdrawn, CustomError> {
    match slot {
        None => Err(CustomError::UnknownStake),
        Some(stake) => {
            if stake.asset != asset {
                Err(CustomError::UnknownStake)
            } else if stake.user != user.owner {
                Err(CustomError::UnauthorizedUser)
            } else if stake.is_withdrawn {
                Err(CustomError::AlreadyWithdrawn)
            } else if !lock_over(stake.stake_timestamp as int, now as int) {
                Err(CustomError::LockNotEnded)
            } else if vault.balance < stake.amount {
                Err(CustomError::InsufficientVaultBalance)
            } else {
                match settlement(state, stake.amount) {
                    Err(e) => Err(e),
                    Ok(parts) => {
                        if !can_debit(vault.asset, vault.balance, asset, stake.amount)
                            || !can_credit(user.asset, user.balance, asset, parts.payout)
                            || (parts.fee > 0 && !can_credit(
                            fees.asset,
                            fees.balance,
                            asset,
                            parts.fee,
                        )) {
                            Err(CustomError::TransferFailure)
                        } else {
                            Ok(
                                Withdrawn {
                                    user: Wallet {
                                        balance: (user.balance + parts.payout) as u64,
                                        ..user
                                    },
                                    vault: VaultAccount {
                                        balance: (vault.balance - stake.amount) as u64,
                                        ..vault
                                    },
                                    fees: FeeAccount {
                                        balance: (fees.balance + parts.fee) as u64,
                                        ..fees
                                    },
                                    stake: stake.closed(),
                                    settlement: parts,
                                },
                            )
                        }
                    },
                }
            }
        },
    }
}

/// Decides a withdrawal of `asset` at `now` by the owner of `user`.
pub fn process_withdraw(
    asset: AssetId,
    now: i64,
    state: &TokenQuestState,
    user: &Wallet,
    slot: &Option<StakeAccount>,
    vault: &VaultAccount,
    fees: &FeeAccount,
) -> (result: Result<Withdrawn, CustomError>)
    ensures
        result == withdraw_outcome(asset, now, *state, *user, *slot, *vault, *fees),
{
    let stake = match slot {
        None => { return Err(CustomError::UnknownStake); },
        Some(stake) => *stake,
    };
    if stake.asset != asset {
        return Err(CustomError::UnknownStake);
    }
    if stake.user != user.owner {
        return Err(CustomError::UnauthorizedUser);
    }
    if stake.is_withdrawn {
        return Err(CustomError::AlreadyWithdrawn);
    }
    if !lock_ended(stake.stake_timestamp, now) {
        return Err(CustomError::LockNotEnded);
    }
    if vault.balance < stake.amount {
        return Err(CustomError::InsufficientVaultBalance);
    }
    let parts = match settle(state, stake.amount) {
        Err(e) => { return Err(e); },
        Ok(parts) => parts,
    };
    let vault_left = match debit(vault.asset, vault.balance, asset, stake.amount) {
        Err(e) => { return Err(e); },
        Ok(left) => left,
    };
    let user_sum = match credit(user.asset, user.balance, asset, parts.payout) {
        Err(e) => { return Err(e); },
        Ok(sum) => sum,
    };
    let fee_sum = if parts.fee > 0 {
        match credit(fees.asset, fees.balance, asset, parts.fee) {
            Err(e) => { return Err(e); },
            Ok(sum) => sum,
        }
    } else {
        fees.balance
    };
    Ok(
        Withdrawn {
            user: Wallet { owner: user.owner, asset: user.asset, balance: user_sum },
            vault: VaultAccount { asset: vault.asset, balance: vault_left },
            fees: FeeAccount { asset: fees.asset, balance: fee_sum },
            stake: StakeAccount {
                user: stake.user,
                asset: stake.asset,
                amount: stake.amount,
                stake_timestamp: stake.stake_timestamp,
                is_withdrawn: true,
            },
            settlement: parts,
        },
    )
}

/// What a deposit of `amount` of `asset` at `now` by the owner of `user` does.
///
/// `slot` is what is recorded for this depositor and asset. The deposit is
/// refused, in this order, when the amount is zero, when the amount cannot be
/// moved from the depositor's balance into the vault, and when the slot holds
/// a stake that was not paid out. Otherwise the amount moves and a fresh
/// record, stamped `now`, takes the slot; a record that was paid out is
/// replaced by it.
pub open spec fn deposit_outcome(
    asset: AssetId,
    amount: u64,
    now: i64,
    user: Wallet,
    vault: VaultAccount,
    slot: Option<StakeAccount>,
) -> Result<Deposited, CustomError> {
    if amount == 0 {
        Err(CustomError::InvalidAmount)
    } else if !can_debit(user.asset, user.balance, asset, amount) || !can_credit(
        vault.asset,
        vault.balance,
        asset,
        amount,
    ) {
        Err(CustomError::TransferFailure)
    } else if slot is Some && slot->0.active() {
        Err(CustomError::DuplicateActiveStake)
    } else {
        Ok(
            Deposited {
                user: Wallet { balance: (user.balance - amount) as u64, ..user },
                vault: VaultAccount { balance: (vault.balance + amount) as u64, ..vault },
                stake: StakeAccount::opened(user.owner, asset, amount, now),
            },
        )
    }
}

/// Decides a deposit of `amount` of `asset` at `now` by the owner of `user`.
pub fn process_deposit(
    asset: AssetId,
    amount: u64,
    now: i64,
    user: &Wallet,
    vault: &VaultAccount,
    slot: &Option<StakeAccount>,
) -> (result: Result<Deposited, CustomError>)
    ensures
        result == deposit_outcome(asset, amount, now, *user, *vault, *slot),
{
    if amount == 0 {
        return Err(CustomError::InvalidAmount);
    }
    let user_left = match debit(user.asset, user.balance, asset, amount) {
        Err(e) => { return Err(e); },
        Ok(left) => left,
    };
    let vault_sum = match credit(vault.asset, vault.balance, asset, amount) {
        Err(e) => { return Err(e); },
        Ok(sum) => sum,
    };
    match slot {
        Some(stake) => {
            if !stake.is_withdrawn {
                return Err(CustomError::DuplicateActiveStake);
            }
        },
        None => {},
    }
    Ok(
        Deposited {
            user: Wallet { owner: user.owner, asset: user.asset, balance: user_left },
            vault: VaultAccount { asset: vault.asset, balance: vault_sum },
            stake: StakeAccount {
                user: user.owner,
                asset,
                amount,
                stake_timestamp: now,
                is_withdrawn: false,
            },
        },
    )
}

/// What a claim of the fees collected in `asset` by the owner of `admin` does.
///
/// The claim is refused, in this order, when the caller is not the
/// administrator named in `state`, when nothing has been collected, and when
/// the fees cannot be moved to the caller's balance. Otherwise the whole
/// balance of the fee account moves and the account is left empty.
pub open spec fn claim_outcome(
    asset: AssetId,
    state: TokenQuestState,
    admin: Wallet,
    fees: FeeAccount,
) -> Result<Claimed, CustomError> {
    if admin.owner != state.admin {
        Err(CustomError::UnauthorizedUser)
    } else if fees.balance == 0 {
        Err(CustomError::NoFeesToWithdraw)
    } else if !can_debit(fees.asset, fees.balance, asset, fees.balance) || !can_credit(
        admin.asset,
        admin.balance,
        asset,
        fees.balance,
    ) {
        Err(CustomError::TransferFailure)
    } else {
        Ok(
            Claimed {
                admin: Wallet { balance: (admin.balance + fees.balance) as u64, ..admin },
                fees: FeeAccount { balance: 0, ..fees },
                amount: fees.balance,
            },
        )
    }
}

/// Decides a claim of the fees collected in `asset` by the owner of `admin`.
pub fn process_fee_claim(
    asset: AssetId,
    state: &TokenQuestState,
    admin: &Wallet,
    fees: &FeeAccount,
) -> (result: Result<Claimed, CustomError>)
    ensures
        result == claim_outcome(asset, *state, *admin, *fees),
{
    if admin.owner != state.admin {
        return Err(CustomError::UnauthorizedUser);
    }
    if fees.balance == 0 {
        return Err(CustomError::NoFeesToWithdraw);
    }
    let fees_left = match debit(fees.asset, fees.balance, asset, fees.balance) {
        Err(e) => { return Err(e); },
        Ok(left) => left,
    };
    let admin_sum = match credit(admin.asset, admin.balance, asset, fees.balance) {
        Err(e) => { return Err(e); },
        Ok(sum) => sum,
    };
    Ok(
        Claimed {
            admin: Wallet { owner: admin.owner, asset: admin.asset, balance: admin_sum },
            fees: FeeAccount { asset: fees.asset, balance: fees_left },
            amount: fees.balance,
        },
    )
}

/// What creating the configuration for `admin` does when `existing` is what
/// is configured so far: it is refused if a configuration exists, and yields
/// the initial configuration otherwise.
pub open spec fn initialize_outcome(existing: Option<TokenQuestState>, admin: Identity) -> Result<
    TokenQuestState,
    CustomError,
> {
    if existing is Some {
        Err(CustomError::AlreadyInitialized)
    } else {
        Ok(TokenQuestState::initial(admin))
    }
}

/// Decides the creation of the configuration for `admin`.
pub fn process_initialize(existing: &Option<TokenQuestState>, admin: Identity) -> (result: Result<
    TokenQuestState,
    CustomError,
>)
    ensures
        result == initialize_outcome(*existing, admin),
{
    match existing {
        Some(_) => Err(CustomError::AlreadyInitialized),
        None => Ok(TokenQuestState::new(admin)),
    }
}

} // verus!
