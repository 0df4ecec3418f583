use token_quest::{
    AssetId, CustomError, Engine, FeeAccount, Identity, Settlement, StakeAccount,
    TokenQuestState, VaultAccount, Wallet,
};

fn dana() -> Identity {
    Identity::new(10, 1)
}

fn erin() -> Identity {
    Identity::new(10, 2)
}

fn boss() -> Identity {
    Identity::new(99, 0)
}

fn gold() -> AssetId {
    AssetId::Token(Identity::new(77, 77))
}

fn wallet(owner: Identity, asset: AssetId, balance: u64) -> Wallet {
    Wallet { owner, asset, balance }
}

fn taxed_engine() -> Engine {
    Engine::with_config(TokenQuestState {
        admin: boss(),
        fee_percentage: 300,
        user_tax_on_withdraw: true,
    })
}

#[test]
fn new_engine_is_empty() {
    let engine = Engine::new();
    assert_eq!(engine.config(), None);
    assert_eq!(engine.vault(AssetId::Native), VaultAccount { asset: AssetId::Native, balance: 0 });
    assert_eq!(engine.fees(gold()), FeeAccount { asset: gold(), balance: 0 });
    assert_eq!(engine.stake(dana(), AssetId::Native), None);
}

#[test]
fn engine_is_initialized_once() {
    let mut engine = Engine::new();
    assert_eq!(engine.initialize(boss()), Ok(()));
    assert_eq!(
        engine.config(),
        Some(TokenQuestState { admin: boss(), fee_percentage: 300, user_tax_on_withdraw: false })
    );
    assert_eq!(engine.initialize(dana()), Err(CustomError::AlreadyInitialized));
    assert_eq!(engine.config().unwrap().admin, boss());
}

#[test]
fn full_cycle_with_fee() {
    let mut engine = taxed_engine();
    let mut purse = wallet(dana(), AssetId::Native, 50_000);
    assert_eq!(engine.deposit(&mut purse, AssetId::Native, 10_000, 1_000), Ok(()));
    assert_eq!(purse.balance, 40_000);
    assert_eq!(engine.vault(AssetId::Native).balance, 10_000);
    assert_eq!(
        engine.stake(dana(), AssetId::Native),
        Some(StakeAccount {
            user: dana(),
            asset: AssetId::Native,
            amount: 10_000,
            stake_timestamp: 1_000,
            is_withdrawn: false,
        })
    );
    assert_eq!(engine.withdraw(&mut purse, AssetId::Native, 1_089), Err(CustomError::LockNotEnded));
    assert_eq!(purse.balance, 40_000);
    assert_eq!(engine.vault(AssetId::Native).balance, 10_000);
    assert_eq!(
        engine.withdraw(&mut purse, AssetId::Native, 1_090),
        Ok(Settlement { payout: 9_700, fee: 300 })
    );
    assert_eq!(purse.balance, 49_700);
    assert_eq!(engine.vault(AssetId::Native).balance, 0);
    assert_eq!(engine.fees(AssetId::Native).balance, 300);
    assert!(engine.stake(dana(), AssetId::Native).unwrap().is_withdrawn);
    assert_eq!(
        engine.withdraw(&mut purse, AssetId::Native, 5_000),
        Err(CustomError::AlreadyWithdrawn)
    );
    assert_eq!(purse.balance, 49_700);

    let mut thief = wallet(dana(), AssetId::Native, 0);
    assert_eq!(engine.claim_fees(&mut thief, AssetId::Native), Err(CustomError::UnauthorizedUser));
    assert_eq!(engine.fees(AssetId::Native).balance, 300);
    let mut till = wallet(boss(), AssetId::Native, 1);
    assert_eq!(engine.claim_fees(&mut till, AssetId::Native), Ok(300));
    assert_eq!(till.balance, 301);
    assert_eq!(engine.fees(AssetId::Native).balance, 0);
    assert_eq!(engine.claim_fees(&mut till, AssetId::Native), Err(CustomError::NoFeesToWithdraw));
    assert_eq!(till.balance, 301);
}

#[test]
fn depositors_and_assets_are_kept_apart() {
    let mut engine = taxed_engine();
    let mut dana_sol = wallet(dana(), AssetId::Native, 100);
    let mut dana_gold = wallet(dana(), gold(), 100);
    let mut erin_sol = wallet(erin(), AssetId::Native, 100);
    assert_eq!(engine.deposit(&mut dana_sol, AssetId::Native, 10, 0), Ok(()));
    assert_eq!(engine.deposit(&mut dana_gold, gold(), 20, 1), Ok(()));
    assert_eq!(engine.deposit(&mut erin_sol, AssetId::Native, 30, 2), Ok(()));
    assert_eq!(engine.vault(AssetId::Native).balance, 40);
    assert_eq!(engine.vault(gold()).balance, 20);
    assert_eq!(engine.stake(dana(), gold()).unwrap().amount, 20);
    assert_eq!(engine.stake(erin(), gold()), None);
    assert_eq!(
        engine.deposit(&mut dana_sol, AssetId::Native, 1, 3),
        Err(CustomError::DuplicateActiveStake)
    );
    assert_eq!(engine.withdraw(&mut erin_sol, gold(), 1_000), Err(CustomError::UnknownStake));
    assert_eq!(
        engine.withdraw(&mut erin_sol, AssetId::Native, 92),
        Ok(Settlement { payout: 30, fee: 0 })
    );
    assert_eq!(erin_sol.balance, 100);
    assert_eq!(engine.vault(AssetId::Native).balance, 10);
    assert_eq!(engine.stake(dana(), AssetId::Native).unwrap().is_withdrawn, false);
    assert_eq!(
        engine.withdraw(&mut dana_gold, gold(), 91),
        Ok(Settlement { payout: 20, fee: 0 })
    );
    assert_eq!(engine.vault(gold()).balance, 0);
    assert_eq!(engine.fees(gold()).balance, 0);
}

#[test]
fn depositor_may_stake_again_after_payout() {
    let mut engine = taxed_engine();
    let mut purse = wallet(dana(), gold(), 1_000);
    assert_eq!(engine.deposit(&mut purse, gold(), 1_000, 0), Ok(()));
    assert_eq!(engine.withdraw(&mut purse, gold(), 90), Ok(Settlement { payout: 970, fee: 30 }));
    assert_eq!(engine.deposit(&mut purse, gold(), 970, 100), Ok(()));
    assert_eq!(engine.vault(gold()).balance, 970);
    assert_eq!(engine.fees(gold()).balance, 30);
    let record = engine.stake(dana(), gold()).unwrap();
    assert_eq!(record.amount, 970);
    assert_eq!(record.stake_timestamp, 100);
    assert!(!record.is_withdrawn);
    assert_eq!(engine.withdraw(&mut purse, gold(), 189), Err(CustomError::LockNotEnded));
    assert_eq!(engine.withdraw(&mut purse, gold(), 190), Ok(Settlement { payout: 941, fee: 29 }));
    assert_eq!(engine.fees(gold()).balance, 59);
    assert_eq!(purse.balance, 941);
}

#[test]
fn engine_refuses_without_changing_anything() {
    let mut engine = Engine::new();
    let mut purse = wallet(dana(), AssetId::Native, 5);
    assert_eq!(engine.deposit(&mut purse, AssetId::Native, 0, 0), Err(CustomError::InvalidAmount));
    assert_eq!(
        engine.deposit(&mut purse, AssetId::Native, 6, 0),
        Err(CustomError::TransferFailure)
    );
    assert_eq!(engine.deposit(&mut purse, gold(), 5, 0), Err(CustomError::TransferFailure));
    assert_eq!(purse.balance, 5);
    assert_eq!(engine.vault(AssetId::Native).balance, 0);
    assert_eq!(engine.stake(dana(), AssetId::Native), None);
    assert_eq!(engine.withdraw(&mut purse, AssetId::Native, 0), Err(CustomError::UnknownStake));
}

#[test]
fn engine_without_configuration_charges_nothing_and_has_no_admin() {
    let mut engine = Engine::new();
    let mut purse = wallet(dana(), AssetId::Native, 500);
    assert_eq!(engine.deposit(&mut purse, AssetId::Native, 500, 10), Ok(()));
    assert_eq!(
        engine.withdraw(&mut purse, AssetId::Native, 100),
        Ok(Settlement { payout: 500, fee: 0 })
    );
    assert_eq!(engine.claim_fees(&mut purse, AssetId::Native), Err(CustomError::UnauthorizedUser));
}

#[test]
fn default_engine_charges_nothing() {
    let mut engine = Engine::new();
    assert_eq!(engine.initialize(boss()), Ok(()));
    let mut purse = wallet(dana(), AssetId::Native, 10_000);
    assert_eq!(engine.deposit(&mut purse, AssetId::Native, 10_000, 0), Ok(()));
    assert_eq!(
        engine.withdraw(&mut purse, AssetId::Native, 90),
        Ok(Settlement { payout: 10_000, fee: 0 })
    );
    let mut till = wallet(boss(), AssetId::Native, 0);
    assert_eq!(engine.claim_fees(&mut till, AssetId::Native), Err(CustomError::NoFeesToWithdraw));
}

#[test]
fn vault_always_covers_live_stakes() {
    let mut engine = taxed_engine();
    let mut total_live: u64 = 0;
    let mut purses: Vec<Wallet> = Vec::new();
    for i in 0..20u64 {
        let mut purse = wallet(Identity::new(1, i as u128), gold(), 1_000 + i);
        assert_eq!(engine.deposit(&mut purse, gold(), 100 + i, i as i64), Ok(()));
        total_live += 100 + i;
        assert_eq!(engine.vault(gold()).balance, total_live);
        purses.push(purse);
    }
    let mut fees: u64 = 0;
    for (i, purse) in purses.iter_mut().enumerate() {
        if i % 2 == 0 {
            let parts = engine.withdraw(purse, gold(), 1_000).unwrap();
            let amount = 100 + i as u64;
            assert_eq!(parts.fee, amount * 300 / 10_000);
            assert_eq!(parts.payout + parts.fee, amount);
            total_live -= amount;
            fees += parts.fee;
            assert_eq!(engine.vault(gold()).balance, total_live);
            assert_eq!(engine.fees(gold()).balance, fees);
        }
    }
    for (i, purse) in purses.iter_mut().enumerate() {
        let again = engine.withdraw(purse, gold(), 2_000);
        if i % 2 == 0 {
            assert_eq!(again, Err(CustomError::AlreadyWithdrawn));
        } else {
            assert!(again.is_ok());
        }
    }
    assert_eq!(engine.vault(gold()).balance, 0);
}
