//! The engine: the books, kept in memory, and the operations on them.
//!
//! The engine owns the configuration, the custody accounts and the stakes.
//! Balances that parties hold outside it are handed in with each call. Every
//! operation either carries out the whole change or changes nothing.

use vstd::prelude::*;
use crate::accounts::{FeeAccount, StakeAccount, TokenQuestState, VaultAccount, Wallet};
use crate::books::{
    lemma_claim_keeps_wf, lemma_custody_tagged, lemma_deposit_keeps_wf, lemma_pool_found,
    lemma_put_custody, lemma_stake_found, lemma_stake_tagged, lemma_vault_covers_withdrawal,
    lemma_withdraw_keeps_wf, pool_is, pools_wf, stake_is, stakes_wf, Books, Custody,
};
use crate::error::CustomError;
use crate::fee::Settlement;
use crate::identity::{AssetId, Identity};
use crate::processor::{process_deposit, process_fee_claim, process_initialize, process_withdraw};

verus! {

/// A vault engine with its whole state.
///
/// A stake that was paid out stays on record until its depositor deposits the
/// same asset again; the new stake then takes its place.
pub struct Engine {
    config: Option<TokenQuestState>,
    pools: Vec<Custody>,
    stakes: Vec<StakeAccount>,
}

impl View for Engine {
    type V = Books;

    closed spec fn view(&self) -> Books {
        Books { config: self.config, pools: self.pools@, stakes: self.stakes@ }
    }
}

impl Engine {
    /// The engine is sound when its books are: no asset has two custody
    /// entries, no depositor two records of one asset, and every vault covers
    /// the stakes that are not paid out. Every engine that the constructors
    /// make is sound, and every operation keeps it so.
    pub open spec fn wf(&self) -> bool {
        self@.wf()
    }

    /// An engine that has seen nothing yet and is not configured.
    pub fn new() -> (engine: Engine)
        ensures
            engine@ == Books::empty(),
            engine.wf(),
    {
        let engine = Engine { config: None, pools: Vec::new(), stakes: Vec::new() };
        proof {
            assert(engine@.pools =~= Seq::empty());
            assert(engine@.stakes =~= Seq::empty());
            assert(engine@.wf());
        }
        engine
    }

    /// An engine that has seen nothing yet and runs under `state`.
    pub fn with_config(state: TokenQuestState) -> (engine: Engine)
        ensures
            engine@ == (Books { config: Some(state), ..Books::empty() }),
            engine.wf(),
    {
        let engine = Engine { config: Some(state), pools: Vec::new(), stakes: Vec::new() };
        proof {
            assert(engine@.pools =~= Seq::empty());
            assert(engine@.stakes =~= Seq::empty());
            assert(engine@.wf());
        }
        engine
    }

    /// Pays the stake of `asset` that the owner of `user` holds back into
    /// that balance at `now`, less the fee, which goes to the fee account.
    ///
    /// The result tells how the stake was divided. An engine without a
    /// configuration charges nothing. On failure neither the engine nor the
    /// balance changes. A sound engine never fails for want of funds in the
    /// vault.
    pub fn withdraw(&mut self, user: &mut Wallet, asset: AssetId, now: i64) -> (result: Result<
        Settlement,
        CustomError,
    >)
        requires
            old(self).wf(),
        ensures
            final(self).wf(),
            match old(self)@.withdraw(*old(user), asset, now) {
                Ok((books, wallet, parts)) => result == Ok::<Settlement, CustomError>(parts)
                    && final(self)@ == books && *final(user) == wallet,
                Err(e) => result == Err::<Settlement, CustomError>(e) && final(self)@ == old(
                    self)@ && *final(user) == *old(user),
            },
            result != Err::<Settlement, CustomError>(CustomError::InsufficientVaultBalance),
    {
        let (pool_at, custody) = self.custody(asset);
        let (stake_at, slot) = self.slot(user.owner, asset);
        let wallet = *user;
        let policy = match self.config {
            Some(state) => state,
            None => TokenQuestState::new(user.owner),
        };
        proof {
            lemma_vault_covers_withdrawal(self@, wallet, asset, now);
        }
        match process_withdraw(asset, now, &policy, &wallet, &slot, &custody.vault, &custody.fees) {
            Err(e) => Err(e),
            Ok(done) => {
                let pool = Custody { vault: done.vault, fees: done.fees };
                proof {
                    lemma_withdraw_keeps_wf(self@, wallet, asset, now);
                    lemma_custody_tagged(self.pools@, asset);
                    lemma_stake_tagged(self.stakes@, wallet.owner, asset);
                    lemma_put_custody(self.pools@, pool);
                }
                self.put_custody(pool_at, pool);
                self.put_stake(stake_at, done.stake);
                *user = done.user;
                Ok(done.settlement)
            },
        }
    }

    /// Moves `amount` of `asset` from the balance `user` into the vault and
    /// records the stake of its owner, stamped `now`.
    ///
    /// The vault and the record are created if the asset, or the depositor,
    /// is new. On failure neither the engine nor the balance changes.
    pub fn deposit(&mut self, user: &mut Wallet, asset: AssetId, amount: u64, now: i64) -> (result:
        Result<(), CustomError>)
        requires
            old(self).wf(),
        ensures
            final(self).wf(),
            match old(self)@.deposit(*old(user), asset, amount, now) {
                Ok((books, wallet)) => result is Ok && final(self)@ == books && *final(user)
                    == wallet,
                Err(e) => result == Err::<(), CustomError>(e) && final(self)@ == old(self)@
                    && *final(user) == *old(user),
            },
    {
        let (pool_at, custody) = self.custody(asset);
        let (stake_at, slot) = self.slot(user.owner, asset);
        let wallet = *user;
        match process_deposit(asset, amount, now, &wallet, &custody.vault, &slot) {
            Err(e) => Err(e),
            Ok(done) => {
                let pool = Custody { vault: done.vault, fees: custody.fees };
                proof {
                    lemma_deposit_keeps_wf(self@, wallet, asset, amount, now);
                    lemma_custody_tagged(self.pools@, asset);
                    lemma_put_custody(self.pools@, pool);
                }
                self.put_custody(pool_at, pool);
                self.put_stake(stake_at, done.stake);
                *user = done.user;
                Ok(())
            },
        }
    }

    /// Hands all fees collected in `asset` to the balance `admin`, whose
    /// owner must be the administrator. Without a configuration nobody is.
    ///
    /// The result is the amount that moved. On failure neither the engine
    /// nor the balance changes.
    pub fn claim_fees(&mut self, admin: &mut Wallet, asset: AssetId) -> (result: Result<
        u64,
        CustomError,
    >)
        requires
            old(self).wf(),
        ensures
            final(self).wf(),
            match old(self)@.claim_fees(*old(admin), asset) {
                Ok((books, wallet, amount)) => result == Ok::<u64, CustomError>(amount)
                    && final(self)@ == books && *final(admin) == wallet,
                Err(e) => result == Err::<u64, CustomError>(e) && final(self)@ == old(self)@
                    && *final(admin) == *old(admin),
            },
    {
        let state = match self.config {
            Some(state) => state,
            None => { return Err(CustomError::UnauthorizedUser); },
        };
        let (pool_at, custody) = self.custody(asset);
        let wallet = *admin;
        match process_fee_claim(asset, &state, &wallet, &custody.fees) {
            Err(e) => Err(e),
            Ok(done) => {
                let pool = Custody { vault: custody.vault, fees: done.fees };
                proof {
                    lemma_claim_keeps_wf(self@, wallet, asset);
                    lemma_custody_tagged(self.pools@, asset);
                }
                self.put_custody(pool_at, pool);
                *admin = done.admin;
                Ok(done.amount)
            },
        }
    }

    /// Creates the configuration: `admin` administers, the fee is three
    /// percent, and withdrawals are not charged. It can be done once.
    pub fn initialize(&mut self, admin: Identity) -> (result: Result<(), CustomError>)
        requires
            old(self).wf(),
        ensures
            final(self).wf(),
            match old(self)@.initialize(admin) {
                Ok(books) => result is Ok && final(self)@ == books,
                Err(e) => result == Err::<(), CustomError>(e) && final(self)@ == old(self)@,
            },
    {
        match process_initialize(&self.config, admin) {
            Err(e) => Err(e),
            Ok(state) => {
                self.config = Some(state);
                Ok(())
            },
        }
    }

    /// The configuration, if it has been created.
    pub fn config(&self) -> (config: Option<TokenQuestState>)
        ensures
            config == self@.config,
    {
        self.config
    }

    /// The vault of `asset`; empty if the asset was never deposited.
    pub fn vault(&self, asset: AssetId) -> (vault: VaultAccount)
        requires
            self.wf(),
        ensures
            vault == self@.custody(asset).vault,
    {
        self.custody(asset).1.vault
    }

    /// The fee account of `asset`; empty if the asset was never deposited.
    pub fn fees(&self, asset: AssetId) -> (fees: FeeAccount)
        requires
            self.wf(),
        ensures
            fees == self@.custody(asset).fees,
    {
        self.custody(asset).1.fees
    }

    /// What is recorded for `user` and `asset`, if anything.
    pub fn stake(&self, user: Identity, asset: AssetId) -> (record: Option<StakeAccount>)
        requires
            self.wf(),
        ensures
            record == self@.stake(user, asset),
    {
        self.slot(user, asset).1
    }

    fn find_pool(&self, asset: AssetId) -> (place: Option<usize>)
        ensures
            match place {
                Some(i) => pool_is(self.pools@, i as int, asset),
                None => forall|k: int| !pool_is(self.pools@, k, asset),
            },
    {
        let mut i: usize = 0;
        while i < self.pools.len()
            invariant
                i <= self.pools.len(),
                forall|k: int| 0 <= k < i ==> !pool_is(self.pools@, k, asset),
            decreases self.pools.len() - i,
        {
            if self.pools[i].vault.asset == asset {
                return Some(i);
            }
            i += 1;
        }
        None
    }

    fn find_stake(&self, user: Identity, asset: AssetId) -> (place: Option<usize>)
        ensures
            match place {
                Some(i) => stake_is(self.stakes@, i as int, user, asset),
                None => forall|k: int| !stake_is(self.stakes@, k, user, asset),
            },
    {
        let mut i: usize = 0;
        while i < self.stakes.len()
            invariant
                i <= self.stakes.len(),
                forall|k: int| 0 <= k < i ==> !stake_is(self.stakes@, k, user, asset),
            decreases self.stakes.len() - i,
        {
            if self.stakes[i].user == user && self.stakes[i].asset == asset {
                return Some(i);
            }
            i += 1;
        }
        None
    }

    fn custody(&self, asset: AssetId) -> (found: (Option<usize>, Custody))
        requires
            self.wf(),
        ensures
            found.1 == self@.custody(asset),
            match found.0 {
                Some(i) => pool_is(self.pools@, i as int, asset),
                None => forall|k: int| !pool_is(self.pools@, k, asset),
            },
    {
        let place = self.find_pool(asset);
        match place {
            Some(i) => {
                proof {
                    lemma_pool_found(self.pools@, i as int, asset);
                }
                (place, self.pools[i])
            },
            None => (
                place,
                Custody {
                    vault: VaultAccount { asset, balance: 0 },
                    fees: FeeAccount { asset, balance: 0 },
                },
            ),
        }
    }

    fn slot(&self, user: Identity, asset: AssetId) -> (found: (Option<usize>, Option<StakeAccount>))
        requires
            self.wf(),
        ensures
            found.1 == self@.stake(user, asset),
            match found.0 {
                Some(i) => stake_is(self.stakes@, i as int, user, asset),
                None => forall|k: int| !stake_is(self.stakes@, k, user, asset),
            },
    {
        let place = self.find_stake(user, asset);
        match place {
            Some(i) => {
                proof {
                    lemma_stake_found(self.stakes@, i as int, user, asset);
                }
                (place, Some(self.stakes[i]))
            },
            None => (place, None),
        }
    }

    fn put_custody(&mut self, place: Option<usize>, custody: Custody)
        requires
            pools_wf(old(self).pools@),
            match place {
                Some(i) => pool_is(old(self).pools@, i as int, custody.asset()),
                None => forall|k: int| !pool_is(old(self).pools@, k, custody.asset()),
            },
        ensures
            final(self)@ == old(self)@.with_custody(custody),
    {
        match place {
            Some(i) => {
                proof {
                    lemma_pool_found(self.pools@, i as int, custody.asset());
                }
                self.pools.set(i, custody);
            },
            None => {
                self.pools.push(custody);
            },
        }
    }

    fn put_stake(&mut self, place: Option<usize>, record: StakeAccount)
        requires
            stakes_wf(old(self).stakes@),
            match place {
                Some(i) => stake_is(old(self).stakes@, i as int, record.user, record.asset),
                None => forall|k: int| !stake_is(old(self).stakes@, k, record.user, record.asset),
            },
        ensures
            final(self)@ == old(self)@.with_stake(record),
    {
        match place {
            Some(i) => {
                proof {
                    lemma_stake_found(self.stakes@, i as int, record.user, record.asset);
                }
                self.stakes.set(i, record);
            },
            None => {
                self.stakes.push(record);
            },
        }
    }
}

} // verus!
