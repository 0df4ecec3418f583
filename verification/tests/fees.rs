use token_quest::{
    initialize, lock_ended, settle, withdraw_fees_sol, withdraw_fees_spl, AssetId, CustomError,
    FeeAccount, Identity, Initialize, Settlement, TokenQuestState, Wallet, WithdrawFeeSOL,
    WithdrawFeeSPL, BASIS_POINTS_DENOMINATOR, DEFAULT_FEE_BASIS_POINTS, LOCKING_PERIOD,
    STAKING_PERIOD,
};

fn boss() -> Identity {
    Identity::new(5, 5)
}

fn claim_context(fees: u64) -> WithdrawFeeSOL {
    WithdrawFeeSOL {
        admin: Wallet { owner: boss(), asset: AssetId::Native, balance: 20 },
        fee_pda: FeeAccount { asset: AssetId::Native, balance: fees },
        state: TokenQuestState::new(boss()),
    }
}

#[test]
fn admin_claims_five_hundred_then_nothing() {
    let mut ctx = claim_context(500);
    assert_eq!(withdraw_fees_sol(&mut ctx), Ok(500));
    assert_eq!(ctx.fee_pda.balance, 0);
    assert_eq!(ctx.admin.balance, 520);
    let after = ctx;
    assert_eq!(withdraw_fees_sol(&mut ctx), Err(CustomError::NoFeesToWithdraw));
    assert_eq!(ctx, after);
}

#[test]
fn stranger_cannot_claim() {
    let mut ctx = claim_context(500);
    ctx.admin.owner = Identity::new(5, 6);
    let before = ctx;
    assert_eq!(withdraw_fees_sol(&mut ctx), Err(CustomError::UnauthorizedUser));
    assert_eq!(ctx, before);
}

#[test]
fn stranger_is_refused_before_the_balance_is_looked_at() {
    let mut ctx = claim_context(0);
    ctx.admin.owner = Identity::new(6, 5);
    assert_eq!(withdraw_fees_sol(&mut ctx), Err(CustomError::UnauthorizedUser));
}

#[test]
fn claim_that_does_not_fit_fails_the_transfer() {
    let mut ctx = claim_context(500);
    ctx.admin.balance = u64::MAX - 499;
    let before = ctx;
    assert_eq!(withdraw_fees_sol(&mut ctx), Err(CustomError::TransferFailure));
    assert_eq!(ctx, before);
    let mut wrong = claim_context(500);
    wrong.admin.asset = AssetId::Token(Identity::new(1, 1));
    assert_eq!(withdraw_fees_sol(&mut wrong), Err(CustomError::TransferFailure));
}

#[test]
fn token_fees_are_claimed_by_mint() {
    let mint = Identity::new(8, 0);
    let asset = AssetId::Token(mint);
    let mut ctx = WithdrawFeeSPL {
        admin_token_account: Wallet { owner: boss(), asset, balance: 0 },
        mint,
        fee_pda: FeeAccount { asset, balance: 42 },
        state: TokenQuestState::new(boss()),
    };
    assert_eq!(withdraw_fees_spl(&mut ctx), Ok(42));
    assert_eq!(ctx.admin_token_account.balance, 42);
    assert_eq!(ctx.fee_pda, FeeAccount { asset, balance: 0 });
    assert_eq!(withdraw_fees_spl(&mut ctx), Err(CustomError::NoFeesToWithdraw));
    let mut other = WithdrawFeeSPL {
        admin_token_account: Wallet { owner: boss(), asset, balance: 0 },
        mint: Identity::new(8, 1),
        fee_pda: FeeAccount { asset, balance: 42 },
        state: TokenQuestState::new(boss()),
    };
    assert_eq!(withdraw_fees_spl(&mut other), Err(CustomError::TransferFailure));
}

#[test]
fn configuration_is_created_once() {
    let mut ctx = Initialize { state: None, admin: boss() };
    assert_eq!(initialize(&mut ctx), Ok(()));
    assert_eq!(
        ctx.state,
        Some(TokenQuestState { admin: boss(), fee_percentage: 300, user_tax_on_withdraw: false })
    );
    let before = ctx;
    ctx.admin = Identity::new(0, 0);
    assert_eq!(initialize(&mut ctx), Err(CustomError::AlreadyInitialized));
    assert_eq!(ctx.state, before.state);
    assert_eq!(DEFAULT_FEE_BASIS_POINTS, 300);
    assert_eq!(BASIS_POINTS_DENOMINATOR, 10_000);
}

#[test]
fn settle_divides_by_the_rate() {
    let taxed = TokenQuestState { admin: boss(), fee_percentage: 300, user_tax_on_withdraw: true };
    assert_eq!(settle(&taxed, 10_000), Ok(Settlement { payout: 9_700, fee: 300 }));
    assert_eq!(settle(&taxed, 0), Ok(Settlement { payout: 0, fee: 0 }));
    assert_eq!(settle(&taxed, 9_999), Ok(Settlement { payout: 9_700, fee: 299 }));
    assert_eq!(settle(&taxed, u64::MAX), Err(CustomError::ArithmeticOverflow));
    let free = TokenQuestState::new(boss());
    assert_eq!(settle(&free, 10_000), Ok(Settlement { payout: 10_000, fee: 0 }));
    assert_eq!(settle(&free, u64::MAX), Ok(Settlement { payout: u64::MAX, fee: 0 }));
    let zero = TokenQuestState { admin: boss(), fee_percentage: 0, user_tax_on_withdraw: true };
    assert_eq!(settle(&zero, u64::MAX), Ok(Settlement { payout: u64::MAX, fee: 0 }));
}

#[test]
fn lock_lasts_ninety_seconds() {
    assert_eq!(STAKING_PERIOD, 60);
    assert_eq!(LOCKING_PERIOD, 30);
    assert!(!lock_ended(100, 189));
    assert!(lock_ended(100, 190));
    assert!(lock_ended(100, 191));
    assert!(lock_ended(-90, 0));
    assert!(!lock_ended(-89, 0));
    assert!(!lock_ended(i64::MAX, i64::MAX));
    assert!(lock_ended(i64::MIN, i64::MIN + 90));
}

#[test]
fn only_broken_books_are_fatal() {
    assert!(CustomError::InsufficientVaultBalance.is_fatal());
    assert!(CustomError::ArithmeticOverflow.is_fatal());
    assert!(!CustomError::InvalidAmount.is_fatal());
    assert!(!CustomError::UnauthorizedUser.is_fatal());
    assert!(!CustomError::AlreadyWithdrawn.is_fatal());
    assert!(!CustomError::LockNotEnded.is_fatal());
    assert!(!CustomError::NoFeesToWithdraw.is_fatal());
    assert!(!CustomError::UnknownStake.is_fatal());
    assert!(!CustomError::DuplicateActiveStake.is_fatal());
    assert!(!CustomError::TransferFailure.is_fatal());
    assert!(!CustomError::AlreadyInitialized.is_fatal());
}

#[test]
fn every_failure_has_its_sentence() {
    assert_eq!(CustomError::InvalidAmount.message(), "Invalid deposit amount.");
    assert_eq!(CustomError::UnauthorizedUser.message(), "Unauthorized user.");
    assert_eq!(CustomError::AlreadyWithdrawn.message(), "Stake already withdrawn.");
    assert_eq!(CustomError::LockNotEnded.message(), "Lock period has not ended yet.");
    assert_eq!(
        CustomError::InsufficientVaultBalance.message(),
        "Vault does not have enough SOL."
    );
    assert_eq!(CustomError::NoFeesToWithdraw.message(), "No fees available to withdraw.");
    assert_eq!(CustomError::UnknownStake.message(), "No stake recorded for this depositor.");
    assert_eq!(CustomError::ArithmeticOverflow.message(), "Fee does not fit in 64 bits.");
    assert_eq!(CustomError::DuplicateActiveStake.message(), "Depositor already holds a stake.");
    assert_eq!(CustomError::TransferFailure.message(), "Transfer could not be carried out.");
    assert_eq!(CustomError::AlreadyInitialized.message(), "Configuration exists already.");
}
