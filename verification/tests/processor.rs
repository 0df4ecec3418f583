use token_quest::processor::{
    process_deposit, process_fee_claim, process_initialize, process_withdraw, Claimed, Deposited,
    Withdrawn,
};
use token_quest::transfer::{credit, debit};
use token_quest::{
    AssetId, CustomError, FeeAccount, Identity, Settlement, StakeAccount, TokenQuestState,
    VaultAccount, Wallet,
};

fn fay() -> Identity {
    Identity::new(2, 3)
}

fn silver() -> AssetId {
    AssetId::Token(Identity::new(6, 6))
}

#[test]
fn debit_takes_what_the_balance_covers() {
    assert_eq!(debit(silver(), 10, silver(), 4), Ok(6));
    assert_eq!(debit(silver(), 10, silver(), 10), Ok(0));
    assert_eq!(debit(silver(), 10, silver(), 0), Ok(10));
    assert_eq!(debit(silver(), 10, silver(), 11), Err(CustomError::TransferFailure));
    assert_eq!(debit(AssetId::Native, 10, silver(), 4), Err(CustomError::TransferFailure));
}

#[test]
fn credit_adds_what_the_balance_has_room_for() {
    assert_eq!(credit(AssetId::Native, 10, AssetId::Native, 4), Ok(14));
    assert_eq!(credit(AssetId::Native, u64::MAX - 4, AssetId::Native, 4), Ok(u64::MAX));
    assert_eq!(
        credit(AssetId::Native, u64::MAX - 3, AssetId::Native, 4),
        Err(CustomError::TransferFailure)
    );
    assert_eq!(credit(silver(), 10, AssetId::Native, 4), Err(CustomError::TransferFailure));
    assert_eq!(
        credit(AssetId::Token(Identity::new(6, 7)), 10, silver(), 4),
        Err(CustomError::TransferFailure)
    );
}

#[test]
fn deposit_is_decided_without_touching_the_accounts() {
    let user = Wallet { owner: fay(), asset: silver(), balance: 30 };
    let vault = VaultAccount { asset: silver(), balance: 70 };
    let done = process_deposit(silver(), 30, 12, &user, &vault, &None);
    assert_eq!(
        done,
        Ok(Deposited {
            user: Wallet { owner: fay(), asset: silver(), balance: 0 },
            vault: VaultAccount { asset: silver(), balance: 100 },
            stake: StakeAccount {
                user: fay(),
                asset: silver(),
                amount: 30,
                stake_timestamp: 12,
                is_withdrawn: false,
            },
        })
    );
    assert_eq!(user.balance, 30);
    assert_eq!(vault.balance, 70);
}

#[test]
fn withdrawal_is_decided_in_the_order_of_its_checks() {
    let state = TokenQuestState { admin: fay(), fee_percentage: 300, user_tax_on_withdraw: true };
    let user = Wallet { owner: fay(), asset: silver(), balance: 0 };
    let stranger = Wallet { owner: Identity::new(2, 4), asset: silver(), balance: 0 };
    let vault = VaultAccount { asset: silver(), balance: 1 };
    let fees = FeeAccount { asset: silver(), balance: 0 };
    let paid = StakeAccount {
        user: fay(),
        asset: silver(),
        amount: 1_000,
        stake_timestamp: 0,
        is_withdrawn: true,
    };
    let live = StakeAccount { is_withdrawn: false, ..paid };
    let ask = |who: &Wallet, slot: Option<StakeAccount>, now: i64| {
        process_withdraw(silver(), now, &state, who, &slot, &vault, &fees)
    };
    assert_eq!(ask(&stranger, None, 0), Err(CustomError::UnknownStake));
    assert_eq!(ask(&stranger, Some(paid), 0), Err(CustomError::UnauthorizedUser));
    assert_eq!(ask(&user, Some(paid), 0), Err(CustomError::AlreadyWithdrawn));
    assert_eq!(ask(&user, Some(live), 0), Err(CustomError::LockNotEnded));
    assert_eq!(ask(&user, Some(live), 90), Err(CustomError::InsufficientVaultBalance));
    let full = VaultAccount { asset: silver(), balance: 1_000 };
    assert_eq!(
        process_withdraw(silver(), 90, &state, &user, &Some(live), &full, &fees),
        Ok(Withdrawn {
            user: Wallet { owner: fay(), asset: silver(), balance: 970 },
            vault: VaultAccount { asset: silver(), balance: 0 },
            fees: FeeAccount { asset: silver(), balance: 30 },
            stake: paid,
            settlement: Settlement { payout: 970, fee: 30 },
        })
    );
}

#[test]
fn claim_is_decided_in_the_order_of_its_checks() {
    let state = TokenQuestState::new(fay());
    let admin = Wallet { owner: fay(), asset: AssetId::Native, balance: u64::MAX };
    let stranger = Wallet { owner: Identity::new(0, 0), asset: AssetId::Native, balance: 0 };
    let empty = FeeAccount { asset: AssetId::Native, balance: 0 };
    let full = FeeAccount { asset: AssetId::Native, balance: 1 };
    assert_eq!(
        process_fee_claim(AssetId::Native, &state, &stranger, &empty),
        Err(CustomError::UnauthorizedUser)
    );
    assert_eq!(
        process_fee_claim(AssetId::Native, &state, &admin, &empty),
        Err(CustomError::NoFeesToWithdraw)
    );
    assert_eq!(
        process_fee_claim(AssetId::Native, &state, &admin, &full),
        Err(CustomError::TransferFailure)
    );
    let room = Wallet { balance: u64::MAX - 1, ..admin };
    assert_eq!(
        process_fee_claim(AssetId::Native, &state, &room, &full),
        Ok(Claimed {
            admin: Wallet { balance: u64::MAX, ..admin },
            fees: empty,
            amount: 1,
        })
    );
}

#[test]
fn configuration_is_decided_by_what_exists() {
    assert_eq!(process_initialize(&None, fay()), Ok(TokenQuestState::new(fay())));
    assert_eq!(
        process_initialize(&Some(TokenQuestState::new(fay())), Identity::new(1, 1)),
        Err(CustomError::AlreadyInitialized)
    );
    let state = TokenQuestState::new(fay());
    assert_eq!(state.admin, fay());
    assert_eq!(state.fee_percentage, 300);
    assert!(!state.user_tax_on_withdraw);
}
