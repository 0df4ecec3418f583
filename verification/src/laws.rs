//! What holds of every operation, proved from the definitions of the outcomes.

use vstd::prelude::*;
use crate::accounts::{FeeAccount, StakeAccount, TokenQuestState, VaultAccount, Wallet};
use crate::books::{
    lemma_claim_keeps_wf, lemma_custody_tagged, lemma_deposit_keeps_wf, lemma_put_custody,
    lemma_put_stake, lemma_stake_tagged, lemma_withdraw_keeps_wf, locked, Books, Custody,
};
use crate::error::CustomError;
use crate::fee::{lemma_fee_within_amount, settlement, Settlement};
use crate::identity::{AssetId, Identity};
use crate::instructions::{
    DepositSOL, DepositSPL, WithdrawFeeSOL, WithdrawFeeSPL, WithdrawSOL, WithdrawSPL,
};
use crate::lock::unlock_time;
use crate::processor::{
    claim_outcome, deposit_outcome, withdraw_outcome, Claimed, Deposited, Withdrawn,
};

verus! {

/// Conservation: a withdrawal that succeeds takes out of the vault exactly
/// what it hands on. The vault before equals the vault after plus payout plus
/// fee; the payout arrives at the depositor, the fee at the fee account, and
/// payout and fee together are the stake.
pub proof fn lemma_withdraw_conserves(
    asset: AssetId,
    now: i64,
    state: TokenQuestState,
    user: Wallet,
    slot: Option<StakeAccount>,
    vault: VaultAccount,
    fees: FeeAccount,
)
    ensures
        withdraw_outcome(asset, now, state, user, slot, vault, fees) matches Ok(done) ==> {
            &&& vault.balance == done.vault.balance + done.settlement.payout + done.settlement.fee
            &&& done.user.balance == user.balance + done.settlement.payout
            &&& done.fees.balance == fees.balance + done.settlement.fee
            &&& slot is Some
            &&& done.settlement.payout + done.settlement.fee == slot->0.amount
            &&& done.vault.balance + done.user.balance + done.fees.balance == vault.balance
                + user.balance + fees.balance
        },
{
}

/// Conservation on the way in: a deposit that succeeds takes the amount from
/// the depositor and adds it to the vault, and records exactly that amount.
pub proof fn lemma_deposit_conserves(
    asset: AssetId,
    amount: u64,
    now: i64,
    user: Wallet,
    vault: VaultAccount,
    slot: Option<StakeAccount>,
)
    ensures
        deposit_outcome(asset, amount, now, user, vault, slot) matches Ok(done) ==> {
            &&& done.vault.balance == vault.balance + amount
            &&& done.user.balance + amount == user.balance
            &&& done.stake.amount == amount
            &&& done.stake.wf()
            &&& done.stake.active()
        },
{
}

/// Single withdrawal: the record that a successful withdrawal leaves behind
/// can never be withdrawn again, whoever asks, whenever, and whatever the
/// other accounts hold; its depositor is told that it was paid out before.
pub proof fn lemma_withdraw_once(
    asset: AssetId,
    now: i64,
    state: TokenQuestState,
    user: Wallet,
    slot: Option<StakeAccount>,
    vault: VaultAccount,
    fees: FeeAccount,
    later: i64,
    later_state: TokenQuestState,
    later_user: Wallet,
    later_vault: VaultAccount,
    later_fees: FeeAccount,
)
    requires
        withdraw_outcome(asset, now, state, user, slot, vault, fees) is Ok,
    ensures
        ({
            let done = withdraw_outcome(asset, now, state, user, slot, vault, fees)->Ok_0;
            let again = withdraw_outcome(
                asset,
                later,
                later_state,
                later_user,
                Some(done.stake),
                later_vault,
                later_fees,
            );
            &&& again is Err
            &&& later_user.owner == user.owner ==> again == Err::<Withdrawn, CustomError>(
                CustomError::AlreadyWithdrawn,
            )
        }),
{
}

/// Single withdrawal of native currency: a second withdrawal on the context
/// that a first one left behind fails because the stake was paid out before.
pub proof fn lemma_withdraw_sol_twice(ctx: WithdrawSOL, now: i64, later: i64)
    requires
        ctx.outcome(now) is Ok,
    ensures
        ctx.outcome(now)->Ok_0.0.outcome(later) == Err::<(WithdrawSOL, Settlement), CustomError>(
            CustomError::AlreadyWithdrawn,
        ),
{
}

/// Single withdrawal of tokens: a second withdrawal on the context that a
/// first one left behind fails because the stake was paid out before.
pub proof fn lemma_withdraw_spl_twice(ctx: WithdrawSPL, now: i64, later: i64)
    requires
        ctx.outcome(now) is Ok,
    ensures
        ctx.outcome(now)->Ok_0.0.outcome(later) == Err::<(WithdrawSPL, Settlement), CustomError>(
            CustomError::AlreadyWithdrawn,
        ),
{
}

/// Lock boundary: a withdrawal is refused for its lock exactly when it is the
/// depositor's own unpaid stake of this asset and the time is before the
/// unlock time; at the unlock time itself the lock no longer stands in the way.
pub proof fn lemma_lock_boundary(
    asset: AssetId,
    now: i64,
    state: TokenQuestState,
    user: Wallet,
    stake: StakeAccount,
    vault: VaultAccount,
    fees: FeeAccount,
)
    requires
        stake.asset == asset,
        stake.user == user.owner,
        stake.active(),
    ensures
        withdraw_outcome(asset, now, state, user, Some(stake), vault, fees) == Err::<
            Withdrawn,
            CustomError,
        >(CustomError::LockNotEnded) <==> now < unlock_time(stake.stake_timestamp as int),
        unlock_time(stake.stake_timestamp as int) == stake.stake_timestamp + 90,
{
}

/// Zero-fee path: while withdrawals are not charged, every amount is paid out
/// whole and the fee is nothing.
pub proof fn lemma_no_fee_when_disabled(state: TokenQuestState, amount: u64)
    requires
        !state.user_tax_on_withdraw,
    ensures
        settlement(state, amount) == Ok::<Settlement, CustomError>(
            Settlement { payout: amount, fee: 0 },
        ),
{
}

/// While withdrawals are charged at a sound rate, the fee is the amount times
/// the rate over ten thousand, rounded down, and the payout is the rest.
pub proof fn lemma_fee_when_enabled(state: TokenQuestState, amount: u64)
    requires
        state.wf(),
        state.user_tax_on_withdraw,
        amount * state.fee_percentage <= u64::MAX,
    ensures
        settlement(state, amount) matches Ok(parts) && parts.fee == (amount * state.fee_percentage)
            / 10_000 && parts.payout == amount - parts.fee,
{
    lemma_fee_within_amount(amount as int, state.fee_percentage as int);
}

/// Authorization: a withdrawal of a recorded stake by anyone but its
/// depositor is refused as unauthorized.
pub proof fn lemma_withdraw_by_stranger(
    asset: AssetId,
    now: i64,
    state: TokenQuestState,
    user: Wallet,
    stake: StakeAccount,
    vault: VaultAccount,
    fees: FeeAccount,
)
    requires
        stake.asset == asset,
        stake.user != user.owner,
    ensures
        withdraw_outcome(asset, now, state, user, Some(stake), vault, fees) == Err::<
            Withdrawn,
            CustomError,
        >(CustomError::UnauthorizedUser),
{
}

/// Fee claim by a stranger: anyone but the administrator is refused as
/// unauthorized.
pub proof fn lemma_claim_by_stranger(
    asset: AssetId,
    state: TokenQuestState,
    admin: Wallet,
    fees: FeeAccount,
)
    requires
        admin.owner != state.admin,
    ensures
        claim_outcome(asset, state, admin, fees) == Err::<Claimed, CustomError>(
            CustomError::UnauthorizedUser,
        ),
{
}

/// Fee claim: a claim that succeeds moves the whole fee balance to the
/// administrator and leaves the fee account empty, so that a second claim
/// right after it finds no fees.
pub proof fn lemma_claim_empties(
    asset: AssetId,
    state: TokenQuestState,
    admin: Wallet,
    fees: FeeAccount,
)
    requires
        claim_outcome(asset, state, admin, fees) is Ok,
    ensures
        ({
            let done = claim_outcome(asset, state, admin, fees)->Ok_0;
            &&& done.amount == fees.balance
            &&& done.amount > 0
            &&& done.fees.balance == 0
            &&& done.admin.balance == admin.balance + fees.balance
            &&& claim_outcome(asset, state, done.admin, done.fees) == Err::<Claimed, CustomError>(
                CustomError::NoFeesToWithdraw,
            )
        }),
{
}

/// Fee claim in native currency, twice: the second claim on the context that
/// a first one left behind finds no fees.
pub proof fn lemma_claim_sol_twice(ctx: WithdrawFeeSOL)
    requires
        ctx.outcome() is Ok,
    ensures
        ctx.outcome()->Ok_0.0.outcome() == Err::<(WithdrawFeeSOL, u64), CustomError>(
            CustomError::NoFeesToWithdraw,
        ),
{
}

/// Fee claim in tokens, twice: the second claim on the context that a first
/// one left behind finds no fees.
pub proof fn lemma_claim_spl_twice(ctx: WithdrawFeeSPL)
    requires
        ctx.outcome() is Ok,
    ensures
        ctx.outcome()->Ok_0.0.outcome() == Err::<(WithdrawFeeSPL, u64), CustomError>(
            CustomError::NoFeesToWithdraw,
        ),
{
}

/// Deposit validation: a deposit of nothing is refused as an invalid amount,
/// whatever the accounts hold.
pub proof fn lemma_deposit_of_nothing(
    asset: AssetId,
    now: i64,
    user: Wallet,
    vault: VaultAccount,
    slot: Option<StakeAccount>,
)
    ensures
        deposit_outcome(asset, 0, now, user, vault, slot) == Err::<Deposited, CustomError>(
            CustomError::InvalidAmount,
        ),
{
}

/// Conservation for native currency: on the context of a withdrawal that
/// succeeds, the vault before equals the vault after plus payout plus fee.
pub proof fn lemma_withdraw_sol_conserves(ctx: WithdrawSOL, now: i64)
    ensures
        ctx.outcome(now) matches Ok((after, parts)) ==> ctx.vault_pda.balance
            == after.vault_pda.balance + parts.payout + parts.fee && after.user.balance
            == ctx.user.balance + parts.payout && after.fee_pda.balance == ctx.fee_pda.balance
            + parts.fee,
{
}

/// Conservation for tokens: on the context of a withdrawal that succeeds,
/// the vault before equals the vault after plus payout plus fee.
pub proof fn lemma_withdraw_spl_conserves(ctx: WithdrawSPL, now: i64)
    ensures
        ctx.outcome(now) matches Ok((after, parts)) ==> ctx.vault_pda.balance
            == after.vault_pda.balance + parts.payout + parts.fee
            && after.user_token_account.balance == ctx.user_token_account.balance + parts.payout
            && after.fee_pda.balance == ctx.fee_pda.balance + parts.fee,
{
}

/// Authorization for native currency: a withdrawal of a recorded stake of
/// native currency by anyone but its depositor is refused as unauthorized.
pub proof fn lemma_withdraw_sol_by_stranger(ctx: WithdrawSOL, now: i64)
    requires
        ctx.stake_pda is Some,
        ctx.stake_pda->0.asset == AssetId::Native,
        ctx.stake_pda->0.user != ctx.user.owner,
    ensures
        ctx.outcome(now) == Err::<(WithdrawSOL, Settlement), CustomError>(
            CustomError::UnauthorizedUser,
        ),
{
}

/// Authorization for tokens: a withdrawal of a recorded stake of the token
/// by anyone but its depositor is refused as unauthorized.
pub proof fn lemma_withdraw_spl_by_stranger(ctx: WithdrawSPL, now: i64)
    requires
        ctx.stake_pda is Some,
        ctx.stake_pda->0.asset == ctx.asset(),
        ctx.stake_pda->0.user != ctx.user_token_account.owner,
    ensures
        ctx.outcome(now) == Err::<(WithdrawSPL, Settlement), CustomError>(
            CustomError::UnauthorizedUser,
        ),
{
}

/// Deposit validation on the contexts: a deposit of nothing is refused as an
/// invalid amount, in native currency and in tokens alike.
pub proof fn lemma_deposit_of_nothing_refused(sol: DepositSOL, spl: DepositSPL, now: i64)
    ensures
        sol.outcome(0, now) == Err::<DepositSOL, CustomError>(CustomError::InvalidAmount),
        spl.outcome(0, now) == Err::<DepositSPL, CustomError>(CustomError::InvalidAmount),
{
}

/// What a deposit changes in the books: the vault of the asset grows by the
/// amount, the depositor's record of the asset is the new stake, and the
/// vaults of other assets, all fee accounts, all other records and the
/// configuration stay as they were.
pub proof fn lemma_books_deposit(
    books: Books,
    user: Wallet,
    asset: AssetId,
    amount: u64,
    now: i64,
    other_user: Identity,
    other_asset: AssetId,
)
    requires
        books.wf(),
        books.deposit(user, asset, amount, now) is Ok,
    ensures
        ({
            let (after, wallet) = books.deposit(user, asset, amount, now)->Ok_0;
            &&& after.wf()
            &&& after.config == books.config
            &&& wallet.balance + amount == user.balance
            &&& after.custody(asset).vault.balance == books.custody(asset).vault.balance + amount
            &&& after.custody(other_asset).fees == books.custody(other_asset).fees
            &&& other_asset != asset ==> after.custody(other_asset) == books.custody(other_asset)
            &&& after.stake(user.owner, asset) == Some(
                StakeAccount::opened(user.owner, asset, amount, now),
            )
            &&& !(other_user == user.owner && other_asset == asset) ==> after.stake(
                other_user,
                other_asset,
            ) == books.stake(other_user, other_asset)
            &&& locked(after.stakes, asset) == locked(books.stakes, asset) + amount
            &&& other_asset != asset ==> locked(after.stakes, other_asset) == locked(
                books.stakes,
                other_asset,
            )
        }),
{
    let custody = books.custody(asset);
    let done = deposit_outcome(
        asset,
        amount,
        now,
        user,
        custody.vault,
        books.stake(user.owner, asset),
    )->Ok_0;
    lemma_deposit_keeps_wf(books, user, asset, amount, now);
    lemma_custody_tagged(books.pools, asset);
    lemma_stake_tagged(books.stakes, user.owner, asset);
    lemma_put_custody(books.pools, Custody { vault: done.vault, ..custody });
    lemma_put_stake(books.stakes, done.stake);
}

/// What a withdrawal changes in the books: the vault of the asset gives up
/// the whole stake, which is payout plus fee; the fee account of the asset
/// grows by the fee; the depositor's record is marked as paid out; and the
/// custody of other assets, all other records and the configuration stay as
/// they were.
pub proof fn lemma_books_withdraw(
    books: Books,
    user: Wallet,
    asset: AssetId,
    now: i64,
    other_user: Identity,
    other_asset: AssetId,
)
    requires
        books.wf(),
        books.withdraw(user, asset, now) is Ok,
    ensures
        ({
            let (after, wallet, parts) = books.withdraw(user, asset, now)->Ok_0;
            &&& after.wf()
            &&& after.config == books.config
            &&& books.stake(user.owner, asset) matches Some(before)
            &&& before.active()
            &&& now >= before.stake_timestamp + 90
            &&& parts.payout + parts.fee == before.amount
            &&& settlement(books.policy(user.owner), before.amount) == Ok::<
                Settlement,
                CustomError,
            >(parts)
            &&& wallet.balance == user.balance + parts.payout
            &&& books.custody(asset).vault.balance == after.custody(asset).vault.balance
                + parts.payout + parts.fee
            &&& after.custody(asset).fees.balance == books.custody(asset).fees.balance + parts.fee
            &&& other_asset != asset ==> after.custody(other_asset) == books.custody(other_asset)
            &&& after.stake(user.owner, asset) == Some(before.closed())
            &&& !(other_user == user.owner && other_asset == asset) ==> after.stake(
                other_user,
                other_asset,
            ) == books.stake(other_user, other_asset)
            &&& locked(after.stakes, asset) == locked(books.stakes, asset) - before.amount
            &&& other_asset != asset ==> locked(after.stakes, other_asset) == locked(
                books.stakes,
                other_asset,
            )
        }),
{
    let custody = books.custody(asset);
    let done = withdraw_outcome(
        asset,
        now,
        books.policy(user.owner),
        user,
        books.stake(user.owner, asset),
        custody.vault,
        custody.fees,
    )->Ok_0;
    lemma_withdraw_keeps_wf(books, user, asset, now);
    lemma_custody_tagged(books.pools, asset);
    lemma_stake_tagged(books.stakes, user.owner, asset);
    lemma_put_custody(books.pools, Custody { vault: done.vault, fees: done.fees });
    lemma_put_stake(books.stakes, done.stake);
}

/// Single withdrawal in the books: once a withdrawal has succeeded, every
/// later withdrawal of the same asset by the same depositor is refused
/// because the stake was paid out before, until that depositor deposits anew.
pub proof fn lemma_books_withdraw_once(
    books: Books,
    user: Wallet,
    asset: AssetId,
    now: i64,
    later_user: Wallet,
    later: i64,
)
    requires
        books.wf(),
        books.withdraw(user, asset, now) is Ok,
        later_user.owner == user.owner,
    ensures
        books.withdraw(user, asset, now)->Ok_0.0.withdraw(later_user, asset, later) == Err::<
            (Books, Wallet, Settlement),
            CustomError,
        >(CustomError::AlreadyWithdrawn),
{
    lemma_books_withdraw(books, user, asset, now, user.owner, asset);
}

/// What a fee claim changes in the books: the fee account of the asset is
/// emptied into the administrator's balance, and everything else stays as it
/// was; a second claim right after it finds no fees.
pub proof fn lemma_books_claim(books: Books, admin: Wallet, asset: AssetId, other_asset: AssetId)
    requires
        books.wf(),
        books.claim_fees(admin, asset) is Ok,
    ensures
        ({
            let (after, wallet, amount) = books.claim_fees(admin, asset)->Ok_0;
            &&& after.wf()
            &&& after.config == books.config
            &&& after.stakes == books.stakes
            &&& books.config matches Some(state)
            &&& state.admin == admin.owner
            &&& amount == books.custody(asset).fees.balance
            &&& amount > 0
            &&& wallet.balance == admin.balance + amount
            &&& after.custody(asset).fees.balance == 0
            &&& after.custody(asset).vault == books.custody(asset).vault
            &&& other_asset != asset ==> after.custody(other_asset) == books.custody(other_asset)
            &&& after.claim_fees(wallet, asset) == Err::<(Books, Wallet, u64), CustomError>(
                CustomError::NoFeesToWithdraw,
            )
        }),
{
    let custody = books.custody(asset);
    let done = claim_outcome(asset, books.config->0, admin, custody.fees)->Ok_0;
    lemma_claim_keeps_wf(books, admin, asset);
    lemma_custody_tagged(books.pools, asset);
    lemma_put_custody(books.pools, Custody { fees: done.fees, ..custody });
}

/// At most one live stake: in sound books a depositor who holds a stake of an
/// asset that is not paid out cannot deposit that asset again; unless the
/// request fails earlier for its amount or for the transfer, it is refused as
/// a duplicate.
pub proof fn lemma_one_active_stake(
    books: Books,
    user: Wallet,
    asset: AssetId,
    amount: u64,
    now: i64,
)
    requires
        books.wf(),
        books.stake(user.owner, asset) is Some,
        books.stake(user.owner, asset)->0.active(),
    ensures
        books.deposit(user, asset, amount, now) is Err,
        amount > 0 && user.asset == asset && amount <= user.balance && books.custody(
            asset,
        ).vault.balance + amount <= u64::MAX ==> books.deposit(user, asset, amount, now) == Err::<
            (Books, Wallet),
            CustomError,
        >(CustomError::DuplicateActiveStake),
{
    lemma_custody_tagged(books.pools, asset);
}

} // verus!
