//! The operations of the vault, each on the set of accounts it touches.
//!
//! A context bundles the accounts one operation reads and writes. The
//! operation either commits to every account in the context or leaves the
//! whole context as it found it. The native currency and fungible tokens have
//! operations of their own; they differ in the asset that is moved and agree
//! in everything else.

use vstd::prelude::*;
use crate::accounts::{FeeAccount, StakeAccount, TokenQuestState, VaultAccount, Wallet};
use crate::error::CustomError;
use crate::fee::Settlement;
use crate::identity::{AssetId, Identity};
use crate::processor::{
    claim_outcome, deposit_outcome, initialize_outcome, process_deposit, process_fee_claim,
    process_initialize, process_withdraw, withdraw_outcome,
};

verus! {

/// The accounts of a withdrawal of fungible tokens.
#[derive(Clone, Copy, Debug, PartialEq, Eq, Structural)]
pub struct WithdrawSPL {
    /// The depositor's token balance, which receives the payout.
    pub user_token_account: Wallet,
    /// The mint of the token that is withdrawn.
    pub mint: Identity,
    /// What is recorded for this depositor and token.
    pub stake_pda: Option<StakeAccount>,
    /// The vault that holds the stake.
    pub vault_pda: VaultAccount,
    /// The account that receives the fee.
    pub fee_pda: FeeAccount,
    /// The configuration in force.
    pub state: TokenQuestState,
}

impl WithdrawSPL {
    /// The token that the operation moves.
    pub open spec fn asset(self) -> AssetId {
        AssetId::Token(self.mint)
    }

    /// The context after a withdrawal at `now`, with the division of the
    /// stake, or the reason for which the withdrawal is refused.
    pub open spec fn outcome(self, now: i64) -> Result<(WithdrawSPL, Settlement), CustomError> {
        match withdraw_outcome(
            self.asset(),
            now,
            self.state,
            self.user_token_account,
            self.stake_pda,
            self.vault_pda,
            self.fee_pda,
        ) {
            Err(e) => Err(e),
            Ok(done) => Ok(
                (
                    WithdrawSPL {
                        user_token_account: done.user,
                        stake_pda: Some(done.stake),
                        vault_pda: done.vault,
                        fee_pda: done.fees,
                        ..self
                    },
                    done.settlement,
                ),
            ),
        }
    }
}

/// Pays a token stake back to its depositor at `now`, less the fee.
///
/// On success the context holds the accounts after the withdrawal and the
/// result tells how the stake was divided; on failure the context is unchanged.
pub fn withdraw_spl(ctx: &mut WithdrawSPL, now: i64) -> (result: Result<Settlement, CustomError>)
    ensures
        match old(ctx).outcome(now) {
            Ok((after, parts)) => result == Ok::<Settlement, CustomError>(parts) && *final(ctx)
                == after,
            Err(e) => result == Err::<Settlement, CustomError>(e) && *final(ctx) == *old(ctx),
        },
{
    let asset = AssetId::Token(ctx.mint);
    match process_withdraw(
        asset,
        now,
        &ctx.state,
        &ctx.user_token_account,
        &ctx.stake_pda,
        &ctx.vault_pda,
        &ctx.fee_pda,
    ) {
        Err(e) => Err(e),
        Ok(done) => {
            ctx.user_token_account = done.user;
            ctx.stake_pda = Some(done.stake);
            ctx.vault_pda = done.vault;
            ctx.fee_pda = done.fees;
            Ok(done.settlement)
        },
    }
}

/// The accounts of a withdrawal of native currency.
#[derive(Clone, Copy, Debug, PartialEq, Eq, Structural)]
pub struct WithdrawSOL {
    /// The depositor's balance, which receives the payout.
    pub user: Wallet,
    /// What is recorded for this depositor.
    pub stake_pda: Option<StakeAccount>,
    /// The vault that holds the stake.
    pub vault_pda: VaultAccount,
    /// The account that receives the fee.
    pub fee_pda: FeeAccount,
    /// The configuration in force.
    pub state: TokenQuestState,
}

impl WithdrawSOL {
    /// The context after a withdrawal at `now`, with the division of the
    /// stake, or the reason for which the withdrawal is refused.
    pub open spec fn outcome(self, now: i64) -> Result<(WithdrawSOL, Settlement), CustomError> {
        match withdraw_outcome(
            AssetId::Native,
            now,
            self.state,
            self.user,
            self.stake_pda,
            self.vault_pda,
            self.fee_pda,
        ) {
            Err(e) => Err(e),
            Ok(done) => Ok(
                (
                    WithdrawSOL {
                        user: done.user,
                        stake_pda: Some(done.stake),
                        vault_pda: done.vault,
                        fee_pda: done.fees,
                        ..self
                    },
                    done.settlement,
                ),
            ),
        }
    }
}

/// Pays a stake of native currency back to its depositor at `now`, less the fee.
///
/// On success the context holds the accounts after the withdrawal and the
/// result tells how the stake was divided; on failure the context is unchanged.
pub fn withdraw_sol(ctx: &mut WithdrawSOL, now: i64) -> (result: Result<Settlement, CustomError>)
    ensures
        match old(ctx).outcome(now) {
            Ok((after, parts)) => result == Ok::<Settlement, CustomError>(parts) && *final(ctx)
                == after,
            Err(e) => result == Err::<Settlement, CustomError>(e) && *final(ctx) == *old(ctx),
        },
{
    match process_withdraw(
        AssetId::Native,
        now,
        &ctx.state,
        &ctx.user,
        &ctx.stake_pda,
        &ctx.vault_pda,
        &ctx.fee_pda,
    ) {
        Err(e) => Err(e),
        Ok(done) => {
            ctx.user = done.user;
            ctx.stake_pda = Some(done.stake);
            ctx.vault_pda = done.vault;
            ctx.fee_pda = done.fees;
            Ok(done.settlement)
        },
    }
}

/// The accounts of a deposit of native currency.
#[derive(Clone, Copy, Debug, PartialEq, Eq, Structural)]
pub struct DepositSOL {
    /// The depositor's balance, which gives the amount.
    pub user: Wallet,
    /// The vault that takes the amount.
    pub vault_pda: VaultAccount,
    /// What is recorded for this depositor so far.
    pub stake_pda: Option<StakeAccount>,
}

impl DepositSOL {
    /// The context after a deposit of `amount` at `now`, or the reason for
    /// which the deposit is refused.
    pub open spec fn outcome(self, amount: u64, now: i64) -> Result<DepositSOL, CustomError> {
        match deposit_outcome(
            AssetId::Native,
            amount,
            now,
            self.user,
            self.vault_pda,
            self.stake_pda,
        ) {
            Err(e) => Err(e),
            Ok(done) => Ok(
                DepositSOL { user: done.user, vault_pda: done.vault, stake_pda: Some(done.stake) },
            ),
        }
    }
}

/// Moves `amount` of native currency from the depositor into the vault and
/// records the stake, stamped `now`.
///
/// On success the context holds the accounts after the deposit; on failure it
/// is unchanged.
pub fn deposit_sol(ctx: &mut DepositSOL, amount: u64, now: i64) -> (result: Result<
    (),
    CustomError,
>)
    ensures
        match old(ctx).outcome(amount, now) {
            Ok(after) => result is Ok && *final(ctx) == after,
            Err(e) => result == Err::<(), CustomError>(e) && *final(ctx) == *old(ctx),
        },
{
    match process_deposit(AssetId::Native, amount, now, &ctx.user, &ctx.vault_pda, &ctx.stake_pda) {
        Err(e) => Err(e),
        Ok(done) => {
            ctx.user = done.user;
            ctx.vault_pda = done.vault;
            ctx.stake_pda = Some(done.stake);
            Ok(())
        },
    }
}

/// The accounts of a claim of the fees collected in fungible tokens.
#[derive(Clone, Copy, Debug, PartialEq, Eq, Structural)]
pub struct WithdrawFeeSPL {
    /// The caller's token balance, which receives the fees.
    pub admin_token_account: Wallet,
    /// The mint of the token whose fees are claimed.
    pub mint: Identity,
    /// The account that holds the fees.
    pub fee_pda: FeeAccount,
    /// The configuration in force.
    pub state: TokenQuestState,
}

impl WithdrawFeeSPL {
    /// The token that the operation moves.
    pub open spec fn asset(self) -> AssetId {
        AssetId::Token(self.mint)
    }

    /// The context after the claim, with the amount claimed, or the reason
    /// for which the claim is refused.
    pub open spec fn outcome(self) -> Result<(WithdrawFeeSPL, u64), CustomError> {
        match claim_outcome(self.asset(), self.state, self.admin_token_account, self.fee_pda) {
            Err(e) => Err(e),
            Ok(done) => Ok(
                (
                    WithdrawFeeSPL { admin_token_account: done.admin, fee_pda: done.fees, ..self },
                    done.amount,
                ),
            ),
        }
    }
}

/// Hands all token fees collected so far to the administrator.
///
/// On success the context holds the accounts after the claim and the result
/// is the amount that moved; on failure the context is unchanged.
pub fn withdraw_fees_spl(ctx: &mut WithdrawFeeSPL) -> (result: Result<u64, CustomError>)
    ensures
        match old(ctx).outcome() {
            Ok((after, amount)) => result == Ok::<u64, CustomError>(amount) && *final(ctx)
                == after,
            Err(e) => result == Err::<u64, CustomError>(e) && *final(ctx) == *old(ctx),
        },
{
    let asset = AssetId::Token(ctx.mint);
    match process_fee_claim(asset, &ctx.state, &ctx.admin_token_account, &ctx.fee_pda) {
        Err(e) => Err(e),
        Ok(done) => {
            ctx.admin_token_account = done.admin;
            ctx.fee_pda = done.fees;
            Ok(done.amount)
        },
    }
}

/// The accounts of a deposit of fungible tokens.
#[derive(Clone, Copy, Debug, PartialEq, Eq, Structural)]
pub struct DepositSPL {
    /// The depositor's token balance, which gives the amount.
    pub user_token_account: Wallet,
    /// The mint of the token that is deposited.
    pub mint: Identity,
    /// The vault that takes the amount.
    pub vault_pda: VaultAccount,
    /// What is recorded for this depositor and token so far.
    pub stake_pda: Option<StakeAccount>,
}

impl DepositSPL {
    /// The token that the operation moves.
    pub open spec fn asset(self) -> AssetId {
        AssetId::Token(self.mint)
    }

    /// The context after a deposit of `amount` at `now`, or the reason for
    /// which the deposit is refused.
    pub open spec fn outcome(self, amount: u64, now: i64) -> Result<DepositSPL, CustomError> {
        match deposit_outcome(
            self.asset(),
            amount,
            now,
            self.user_token_account,
            self.vault_pda,
            self.stake_pda,
        ) {
            Err(e) => Err(e),
            Ok(done) => Ok(
                DepositSPL {
                    user_token_account: done.user,
                    vault_pda: done.vault,
                    stake_pda: Some(done.stake),
                    ..self
                },
            ),
        }
    }
}

/// Moves `amount` of a token from the depositor into the vault and records
/// the stake, stamped `now`.
///
/// On success the context holds the accounts after the deposit; on failure it
/// is unchanged.
pub fn deposit_spl(ctx: &mut DepositSPL, amount: u64, now: i64) -> (result: Result<
    (),
    CustomError,
>)
    ensures
        match old(ctx).outcome(amount, now) {
            Ok(after) => result is Ok && *final(ctx) == after,
            Err(e) => result == Err::<(), CustomError>(e) && *final(ctx) == *old(ctx),
        },
{
    let asset = AssetId::Token(ctx.mint);
    match process_deposit(
        asset,
        amount,
        now,
        &ctx.user_token_account,
        &ctx.vault_pda,
        &ctx.stake_pda,
    ) {
        Err(e) => Err(e),
        Ok(done) => {
            ctx.user_token_account = done.user;
            ctx.vault_pda = done.vault;
            ctx.stake_pda = Some(done.stake);
            Ok(())
        },
    }
}

/// The accounts of the creation of the configuration.
#[derive(Clone, Copy, Debug, PartialEq, Eq, Structural)]
pub struct Initialize {
    /// What is configured so far.
    pub state: Option<TokenQuestState>,
    /// Who is to administer the engine.
    pub admin: Identity,
}

impl Initialize {
    /// The context after the configuration was created, or the reason for
    /// which it is not.
    pub open spec fn outcome(self) -> Result<Initialize, CustomError> {
        match initialize_outcome(self.state, self.admin) {
            Err(e) => Err(e),
            Ok(state) => Ok(Initialize { state: Some(state), ..self }),
        }
    }
}

/// Creates the configuration: `admin` administers, the fee is three percent,
/// and withdrawals are not charged. It can be done once.
///
/// On success the context holds the new configuration; on failure it is
/// unchanged.
pub fn initialize(ctx: &mut Initialize) -> (result: Result<(), CustomError>)
    ensures
        match old(ctx).outcome() {
            Ok(after) => result is Ok && *final(ctx) == after,
            Err(e) => result == Err::<(), CustomError>(e) && *final(ctx) == *old(ctx),
        },
{
    match process_initialize(&ctx.state, ctx.admin) {
        Err(e) => Err(e),
        Ok(state) => {
            ctx.state = Some(state);
            Ok(())
        },
    }
}

/// The accounts of a claim of the fees collected in native currency.
#[derive(Clone, Copy, Debug, PartialEq, Eq, Structural)]
pub struct WithdrawFeeSOL {
    /// The caller's balance, which receives the fees.
    pub admin: Wallet,
    /// The account that holds the fees.
    pub fee_pda: FeeAccount,
    /// The configuration in force.
    pub state: TokenQuestState,
}

impl WithdrawFeeSOL {
    /// The context after the claim, with the amount claimed, or the reason
    /// for which the claim is refused.
    pub open spec fn outcome(self) -> Result<(WithdrawFeeSOL, u64), CustomError> {
        match claim_outcome(AssetId::Native, self.state, self.admin, self.fee_pda) {
            Err(e) => Err(e),
            Ok(done) => Ok(
                (WithdrawFeeSOL { admin: done.admin, fee_pda: done.fees, ..self }, done.amount),
            ),
        }
    }
}

/// Hands all fees collected so far in native currency to the administrator.
///
/// On success the context holds the accounts after the claim and the result
/// is the amount that moved; on failure the context is unchanged.
pub fn withdraw_fees_sol(ctx: &mut WithdrawFeeSOL) -> (result: Result<u64, CustomError>)
    ensures
        match old(ctx).outcome() {
            Ok((after, amount)) => result == Ok::<u64, CustomError>(amount) && *final(ctx)
                == after,
            Err(e) => result == Err::<u64, CustomError>(e) && *final(ctx) == *old(ctx),
        },
{
    match process_fee_claim(AssetId::Native, &ctx.state, &ctx.admin, &ctx.fee_pda) {
        Err(e) => Err(e),
        Ok(done) => {
            ctx.admin = done.admin;
            ctx.fee_pda = done.fees;
            Ok(done.amount)
        },
    }
}

} // verus!
