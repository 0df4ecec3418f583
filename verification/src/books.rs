//! The books of the engine as a mathematical value: what is configured, what
//! is held in custody for each asset, and which stakes are recorded.
//!
//! The operations of the engine are stated here as functions from books to
//! books. The executable engine is proved to follow them.

use vstd::prelude::*;
use crate::accounts::{FeeAccount, StakeAccount, TokenQuestState, VaultAccount, Wallet};
use crate::error::CustomError;
use crate::fee::Settlement;
use crate::identity::{AssetId, Identity};
use crate::processor::{claim_outcome, deposit_outcome, initialize_outcome, withdraw_outcome};

verus! {

/// The two custody accounts of one asset: the vault and the fee account.
#[derive(Clone, Copy, Debug, PartialEq, Eq, Structural)]
pub struct Custody {
    /// The pooled deposits.
    pub vault: VaultAccount,
    /// The fees collected and not yet claimed.
    pub fees: FeeAccount,
}

impl Custody {
    /// The custody of an asset that nothing was ever deposited in.
    pub open spec fn empty(asset: AssetId) -> Custody {
        Custody {
            vault: VaultAccount { asset, balance: 0 },
            fees: FeeAccount { asset, balance: 0 },
        }
    }

    /// The asset the two accounts are counted in.
    pub open spec fn asset(self) -> AssetId {
        self.vault.asset
    }

    /// Both accounts are counted in the same asset.
    pub open spec fn wf(self) -> bool {
        self.vault.asset == self.fees.asset
    }
}

/// What `record` adds to the value locked in `asset`: its amount while it is
/// a stake of that asset and not paid out, and nothing otherwise.
pub open spec fn locked_by(record: StakeAccount, asset: AssetId) -> int {
    if record.asset == asset && record.active() {
        record.amount as int
    } else {
        0
    }
}

/// The value of `asset` that the stakes in `stakes` still lock: the sum of
/// the amounts of those that are of this asset and not paid out.
pub open spec fn locked(stakes: Seq<StakeAccount>, asset: AssetId) -> int
    decreases stakes.len(),
{
    if stakes.len() == 0 {
        0
    } else {
        locked(stakes.drop_last(), asset) + locked_by(stakes.last(), asset)
    }
}

/// Adding a record to the end adds what it locks.
pub proof fn lemma_locked_push(stakes: Seq<StakeAccount>, record: StakeAccount, asset: AssetId)
    ensures
        locked(stakes.push(record), asset) == locked(stakes, asset) + locked_by(record, asset),
{
    assert(stakes.push(record).drop_last() =~= stakes);
}

/// Replacing a record takes away what the old one locked and adds what the
/// new one locks.
pub proof fn lemma_locked_update(
    stakes: Seq<StakeAccount>,
    i: int,
    record: StakeAccount,
    asset: AssetId,
)
    requires
        0 <= i < stakes.len(),
    ensures
        locked(stakes.update(i, record), asset) == locked(stakes, asset) - locked_by(
            stakes[i],
            asset,
        ) + locked_by(record, asset),
    decreases stakes.len(),
{
    let after = stakes.update(i, record);
    if i == stakes.len() - 1 {
        assert(after.drop_last() =~= stakes.drop_last());
    } else {
        assert(after.drop_last() =~= stakes.drop_last().update(i, record));
        lemma_locked_update(stakes.drop_last(), i, record, asset);
    }
}

/// No record locks more than all records together, and nothing locks less
/// than nothing.
pub proof fn lemma_locked_bounds(stakes: Seq<StakeAccount>, i: int, asset: AssetId)
    requires
        0 <= i < stakes.len(),
    ensures
        0 <= locked_by(stakes[i], asset) <= locked(stakes, asset),
    decreases stakes.len(),
{
    lemma_locked_nonnegative(stakes.drop_last(), asset);
    if i < stakes.len() - 1 {
        lemma_locked_bounds(stakes.drop_last(), i, asset);
    }
}

/// The locked value is never negative.
pub proof fn lemma_locked_nonnegative(stakes: Seq<StakeAccount>, asset: AssetId)
    ensures
        0 <= locked(stakes, asset),
    decreases stakes.len(),
{
    if stakes.len() > 0 {
        lemma_locked_nonnegative(stakes.drop_last(), asset);
    }
}

/// Whether entry `i` of `pools` is the custody of `asset`.
pub open spec fn pool_is(pools: Seq<Custody>, i: int, asset: AssetId) -> bool {
    0 <= i < pools.len() && pools[i].asset() == asset
}

/// Where `pools` keeps the custody of `asset`, if it keeps one.
pub open spec fn pool_index(pools: Seq<Custody>, asset: AssetId) -> Option<int> {
    if exists|i: int| pool_is(pools, i, asset) {
        Some(choose|i: int| pool_is(pools, i, asset))
    } else {
        None
    }
}

/// The custody of `asset` in `pools`; empty for an asset that has no entry.
pub open spec fn custody_of(pools: Seq<Custody>, asset: AssetId) -> Custody {
    match pool_index(pools, asset) {
        Some(i) => pools[i],
        None => Custody::empty(asset),
    }
}

/// `pools` with `custody` in the place of what was kept for its asset, or at
/// the end if nothing was.
pub open spec fn put_custody(pools: Seq<Custody>, custody: Custody) -> Seq<Custody> {
    match pool_index(pools, custody.asset()) {
        Some(i) => pools.update(i, custody),
        None => pools.push(custody),
    }
}

/// No asset has two entries in `pools`, and the two accounts of an entry are
/// counted in the same asset.
pub open spec fn pools_wf(pools: Seq<Custody>) -> bool {
    &&& forall|i: int| 0 <= i < pools.len() ==> (#[trigger] pools[i]).wf()
    &&& forall|i: int, j: int|
        0 <= i < pools.len() && 0 <= j < pools.len() && i != j ==> (#[trigger] pools[i]).asset()
            != (#[trigger] pools[j]).asset()
}

/// Whether entry `i` of `stakes` is the record of `user` and `asset`.
pub open spec fn stake_is(
    stakes: Seq<StakeAccount>,
    i: int,
    user: Identity,
    asset: AssetId,
) -> bool {
    0 <= i < stakes.len() && stakes[i].user == user && stakes[i].asset == asset
}

/// Where `stakes` keeps the record of `user` and `asset`, if it keeps one.
pub open spec fn stake_index(stakes: Seq<StakeAccount>, user: Identity, asset: AssetId) -> Option<
    int,
> {
    if exists|i: int| stake_is(stakes, i, user, asset) {
        Some(choose|i: int| stake_is(stakes, i, user, asset))
    } else {
        None
    }
}

/// The record of `user` and `asset` in `stakes`, if there is one.
pub open spec fn stake_of(stakes: Seq<StakeAccount>, user: Identity, asset: AssetId) -> Option<
    StakeAccount,
> {
    match stake_index(stakes, user, asset) {
        Some(i) => Some(stakes[i]),
        None => None,
    }
}

/// `stakes` with `record` in the place of what was recorded for its depositor
/// and asset, or at the end if nothing was.
pub open spec fn put_stake(stakes: Seq<StakeAccount>, record: StakeAccount) -> Seq<StakeAccount> {
    match stake_index(stakes, record.user, record.asset) {
        Some(i) => stakes.update(i, record),
        None => stakes.push(record),
    }
}

/// No depositor has two records of one asset in `stakes`, and every record
/// stands for a deposit of something.
pub open spec fn stakes_wf(stakes: Seq<StakeAccount>) -> bool {
    &&& forall|i: int| 0 <= i < stakes.len() ==> (#[trigger] stakes[i]).wf()
    &&& forall|i: int, j: int|
        0 <= i < stakes.len() && 0 <= j < stakes.len() && i != j ==> !((#[trigger] stakes[i]).user
            == (#[trigger] stakes[j]).user && stakes[i].asset == stakes[j].asset)
}

/// The books: the whole persisted state of the engine.
pub struct Books {
    /// The configuration, once it has been created.
    pub config: Option<TokenQuestState>,
    /// The custody accounts, one entry for each asset that was ever deposited.
    pub pools: Seq<Custody>,
    /// The stakes, one entry for each depositor and asset that ever deposited.
    pub stakes: Seq<StakeAccount>,
}

impl Books {
    /// The books of an engine that has seen nothing yet.
    pub open spec fn empty() -> Books {
        Books { config: None, pools: Seq::empty(), stakes: Seq::empty() }
    }

    /// The custody of `asset`; empty for an asset that was never deposited.
    pub open spec fn custody(self, asset: AssetId) -> Custody {
        custody_of(self.pools, asset)
    }

    /// The books with `custody` in the place of what was kept for its asset.
    pub open spec fn with_custody(self, custody: Custody) -> Books {
        Books { pools: put_custody(self.pools, custody), ..self }
    }

    /// The record of `user` and `asset`, if there is one.
    pub open spec fn stake(self, user: Identity, asset: AssetId) -> Option<StakeAccount> {
        stake_of(self.stakes, user, asset)
    }

    /// The books with `record` in the place of what was recorded for its
    /// depositor and asset.
    pub open spec fn with_stake(self, record: StakeAccount) -> Books {
        Books { stakes: put_stake(self.stakes, record), ..self }
    }

    /// The fee policy in force: the configuration if there is one, and
    /// otherwise the defaults, under which nothing is charged.
    pub open spec fn policy(self, caller: Identity) -> TokenQuestState {
        match self.config {
            Some(state) => state,
            None => TokenQuestState::initial(caller),
        }
    }

    /// Each vault covers the stakes of its asset that are not paid out.
    pub open spec fn solvent(self) -> bool {
        forall|asset: AssetId| #[trigger]
            locked(self.stakes, asset) <= self.custody(asset).vault.balance
    }

    /// The books are sound when no asset has two custody entries, no
    /// depositor has two records of one asset, every record stands for a
    /// deposit of something, and every vault covers what it owes.
    pub open spec fn wf(self) -> bool {
        &&& pools_wf(self.pools)
        &&& stakes_wf(self.stakes)
        &&& self.solvent()
    }

    /// The books after the configuration was created for `admin`, or why it
    /// is not created.
    pub open spec fn initialize(self, admin: Identity) -> Result<Books, CustomError> {
        match initialize_outcome(self.config, admin) {
            Err(e) => Err(e),
            Ok(state) => Ok(Books { config: Some(state), ..self }),
        }
    }

    /// The books and the depositor's balance after the owner of `user`
    /// deposited `amount` of `asset` at `now`, or why the deposit is refused.
    pub open spec fn deposit(self, user: Wallet, asset: AssetId, amount: u64, now: i64) -> Result<
        (Books, Wallet),
        CustomError,
    > {
        let custody = self.custody(asset);
        match deposit_outcome(
            asset,
            amount,
            now,
            user,
            custody.vault,
            self.stake(user.owner, asset),
        ) {
            Err(e) => Err(e),
            Ok(done) => Ok(
                (
                    self.with_custody(Custody { vault: done.vault, ..custody }).with_stake(
                        done.stake,
                    ),
                    done.user,
                ),
            ),
        }
    }

    /// The books, the depositor's balance and the division of the stake after
    /// the owner of `user` withdrew the stake of `asset` at `now`, or why the
    /// withdrawal is refused.
    pub open spec fn withdraw(self, user: Wallet, asset: AssetId, now: i64) -> Result<
        (Books, Wallet, Settlement),
        CustomError,
    > {
        let custody = self.custody(asset);
        match withdraw_outcome(
            asset,
            now,
            self.policy(user.owner),
            user,
            self.stake(user.owner, asset),
            custody.vault,
            custody.fees,
        ) {
            Err(e) => Err(e),
            Ok(done) => Ok(
                (
                    self.with_custody(Custody { vault: done.vault, fees: done.fees }).with_stake(
                        done.stake,
                    ),
                    done.user,
                    done.settlement,
                ),
            ),
        }
    }

    /// The books, the caller's balance and the amount claimed after the owner
    /// of `admin` claimed the fees collected in `asset`, or why the claim is
    /// refused. Without a configuration nobody is the administrator.
    pub open spec fn claim_fees(self, admin: Wallet, asset: AssetId) -> Result<
        (Books, Wallet, u64),
        CustomError,
    > {
        let custody = self.custody(asset);
        match self.config {
            None => Err(CustomError::UnauthorizedUser),
            Some(state) => match claim_outcome(asset, state, admin, custody.fees) {
                Err(e) => Err(e),
                Ok(done) => Ok(
                    (
                        self.with_custody(Custody { fees: done.fees, ..custody }),
                        done.admin,
                        done.amount,
                    ),
                ),
            },
        }
    }
}

/// Where no asset has two entries, the custody of an asset is the entry that
/// carries it.
pub proof fn lemma_pool_found(pools: Seq<Custody>, i: int, asset: AssetId)
    requires
        pools_wf(pools),
        pool_is(pools, i, asset),
    ensures
        pool_index(pools, asset) == Some(i),
        custody_of(pools, asset) == pools[i],
{
    let found = choose|k: int| pool_is(pools, k, asset);
    assert(pool_is(pools, found, asset));
    if found != i {
        assert(pools[found].asset() != pools[i].asset());
    }
}

/// The custody of an asset is counted in that asset, in both accounts.
pub proof fn lemma_custody_tagged(pools: Seq<Custody>, asset: AssetId)
    requires
        pools_wf(pools),
    ensures
        custody_of(pools, asset).vault.asset == asset,
        custody_of(pools, asset).fees.asset == asset,
{
    if pool_index(pools, asset) is Some {
        let i = pool_index(pools, asset)->0;
        assert(pool_is(pools, i, asset));
        assert(pools[i].wf());
    }
}

/// Where no depositor has two records of one asset, the record of a depositor
/// and asset is the entry that carries both.
pub proof fn lemma_stake_found(stakes: Seq<StakeAccount>, i: int, user: Identity, asset: AssetId)
    requires
        stakes_wf(stakes),
        stake_is(stakes, i, user, asset),
    ensures
        stake_index(stakes, user, asset) == Some(i),
        stake_of(stakes, user, asset) == Some(stakes[i]),
{
    let found = choose|k: int| stake_is(stakes, k, user, asset);
    assert(stake_is(stakes, found, user, asset));
    if found != i {
        assert(!(stakes[found].user == stakes[i].user && stakes[found].asset == stakes[i].asset));
    }
}

/// A record that is found is the record of the depositor and asset it was
/// looked up by, and it stands for a deposit of something.
pub proof fn lemma_stake_tagged(stakes: Seq<StakeAccount>, user: Identity, asset: AssetId)
    requires
        stakes_wf(stakes),
    ensures
        stake_of(stakes, user, asset) matches Some(record) ==> record.user == user && record.asset
            == asset && record.wf() && locked_by(record, asset) <= locked(stakes, asset),
{
    if stake_index(stakes, user, asset) is Some {
        let i = stake_index(stakes, user, asset)->0;
        assert(stake_is(stakes, i, user, asset));
        assert(stakes[i].wf());
        lemma_locked_bounds(stakes, i, asset);
    }
}

/// Putting a custody entry changes what is kept for its asset and nothing else.
pub proof fn lemma_put_custody(pools: Seq<Custody>, custody: Custody)
    requires
        pools_wf(pools),
        custody.wf(),
    ensures
        pools_wf(put_custody(pools, custody)),
        forall|asset: AssetId|
            #[trigger] custody_of(put_custody(pools, custody), asset) == if asset
                == custody.asset() {
                custody
            } else {
                custody_of(pools, asset)
            },
{
    let after = put_custody(pools, custody);
    let place: int = match pool_index(pools, custody.asset()) {
        Some(i) => i,
        None => pools.len() as int,
    };
    if pool_index(pools, custody.asset()) is Some {
        assert(pool_is(pools, place, custody.asset()));
    }
    assert(after[place] == custody);
    assert forall|i: int| 0 <= i < after.len() && i != place implies #[trigger] after[i]
        == pools[i] && i < pools.len() by {}
    assert forall|i: int, j: int| 0 <= i < after.len() && 0 <= j < after.len() && i != j implies (
    #[trigger] after[i]).asset() != (#[trigger] after[j]).asset() by {
        if i == place {
            assert(pool_is(pools, j, after[j].asset()));
        } else if j == place {
            assert(pool_is(pools, i, after[i].asset()));
        } else {
            assert(pools[i].asset() != pools[j].asset());
        }
    }
    assert(pools_wf(after));
    assert forall|asset: AssetId|
        #[trigger] custody_of(after, asset) == if asset == custody.asset() {
            custody
        } else {
            custody_of(pools, asset)
        } by {
        if asset == custody.asset() {
            assert(pool_is(after, place, asset));
            lemma_pool_found(after, place, asset);
        } else {
            match pool_index(pools, asset) {
                Some(k) => {
                    assert(pool_is(pools, k, asset));
                    assert(pool_is(after, k, asset));
                    lemma_pool_found(after, k, asset);
                },
                None => {
                    if pool_index(after, asset) is Some {
                        let k = pool_index(after, asset)->0;
                        assert(pool_is(after, k, asset));
                        assert(pool_is(pools, k, asset));
                    }
                },
            }
        }
    }
}

/// Putting a record changes what is recorded for its depositor and asset and
/// nothing else, and moves the locked value of every asset by the difference
/// between what the record locks and what its predecessor locked.
pub proof fn lemma_put_stake(stakes: Seq<StakeAccount>, record: StakeAccount)
    requires
        stakes_wf(stakes),
        record.wf(),
    ensures
        stakes_wf(put_stake(stakes, record)),
        forall|user: Identity, asset: AssetId|
            #[trigger] stake_of(put_stake(stakes, record), user, asset) == if user == record.user
                && asset == record.asset {
                Some(record)
            } else {
                stake_of(stakes, user, asset)
            },
        forall|asset: AssetId|
            #[trigger] locked(put_stake(stakes, record), asset) == locked(stakes, asset) - (
            match stake_of(stakes, record.user, record.asset) {
                Some(before) => locked_by(before, asset),
                None => 0,
            }) + locked_by(record, asset),
{
    let after = put_stake(stakes, record);
    let place: int = match stake_index(stakes, record.user, record.asset) {
        Some(i) => i,
        None => stakes.len() as int,
    };
    if stake_index(stakes, record.user, record.asset) is Some {
        assert(stake_is(stakes, place, record.user, record.asset));
    }
    assert(after[place] == record);
    assert forall|i: int| 0 <= i < after.len() && i != place implies #[trigger] after[i]
        == stakes[i] && i < stakes.len() by {}
    assert forall|i: int, j: int| 0 <= i < after.len() && 0 <= j < after.len() && i != j implies !((
    #[trigger] after[i]).user == (#[trigger] after[j]).user && after[i].asset
        == after[j].asset) by {
        if i == place {
            if after[j].user == record.user && after[j].asset == record.asset {
                assert(stake_is(stakes, j, record.user, record.asset));
            }
        } else if j == place {
            if after[i].user == record.user && after[i].asset == record.asset {
                assert(stake_is(stakes, i, record.user, record.asset));
            }
        } else {
            assert(!(stakes[i].user == stakes[j].user && stakes[i].asset == stakes[j].asset));
        }
    }
    assert(stakes_wf(after));
    assert forall|user: Identity, asset: AssetId|
        #[trigger] stake_of(after, user, asset) == if user == record.user && asset
            == record.asset {
            Some(record)
        } else {
            stake_of(stakes, user, asset)
        } by {
        if user == record.user && asset == record.asset {
            assert(stake_is(after, place, user, asset));
            lemma_stake_found(after, place, user, asset);
        } else {
            match stake_index(stakes, user, asset) {
                Some(k) => {
                    assert(stake_is(stakes, k, user, asset));
                    assert(stake_is(after, k, user, asset));
                    lemma_stake_found(after, k, user, asset);
                },
                None => {
                    if stake_index(after, user, asset) is Some {
                        let k = stake_index(after, user, asset)->0;
                        assert(stake_is(after, k, user, asset));
                        assert(stake_is(stakes, k, user, asset));
                    }
                },
            }
        }
    }
    assert forall|asset: AssetId|
        #[trigger] locked(after, asset) == locked(stakes, asset) - (match stake_of(
            stakes,
            record.user,
            record.asset,
        ) {
            Some(before) => locked_by(before, asset),
            None => 0,
        }) + locked_by(record, asset) by {
        match stake_index(stakes, record.user, record.asset) {
            Some(i) => {
                lemma_locked_update(stakes, i, record, asset);
            },
            None => {
                lemma_locked_push(stakes, record, asset);
            },
        }
    }
}

/// A deposit keeps sound books sound.
pub proof fn lemma_deposit_keeps_wf(
    books: Books,
    user: Wallet,
    asset: AssetId,
    amount: u64,
    now: i64,
)
    requires
        books.wf(),
        books.deposit(user, asset, amount, now) is Ok,
    ensures
        books.deposit(user, asset, amount, now)->Ok_0.0.wf(),
{
    let custody = books.custody(asset);
    let slot = books.stake(user.owner, asset);
    let done = deposit_outcome(asset, amount, now, user, custody.vault, slot)->Ok_0;
    let pool = Custody { vault: done.vault, ..custody };
    let after = books.deposit(user, asset, amount, now)->Ok_0.0;
    lemma_custody_tagged(books.pools, asset);
    lemma_stake_tagged(books.stakes, user.owner, asset);
    lemma_put_custody(books.pools, pool);
    lemma_put_stake(books.stakes, done.stake);
    assert forall|a: AssetId| #[trigger]
        locked(after.stakes, a) <= after.custody(a).vault.balance by {
        assert(locked(books.stakes, a) <= books.custody(a).vault.balance);
    }
}

/// A withdrawal keeps sound books sound.
pub proof fn lemma_withdraw_keeps_wf(books: Books, user: Wallet, asset: AssetId, now: i64)
    requires
        books.wf(),
        books.withdraw(user, asset, now) is Ok,
    ensures
        books.withdraw(user, asset, now)->Ok_0.0.wf(),
{
    let custody = books.custody(asset);
    let slot = books.stake(user.owner, asset);
    let done = withdraw_outcome(
        asset,
        now,
        books.policy(user.owner),
        user,
        slot,
        custody.vault,
        custody.fees,
    )->Ok_0;
    let pool = Custody { vault: done.vault, fees: done.fees };
    let after = books.withdraw(user, asset, now)->Ok_0.0;
    lemma_custody_tagged(books.pools, asset);
    lemma_stake_tagged(books.stakes, user.owner, asset);
    lemma_put_custody(books.pools, pool);
    lemma_put_stake(books.stakes, done.stake);
    assert forall|a: AssetId| #[trigger]
        locked(after.stakes, a) <= after.custody(a).vault.balance by {
        assert(locked(books.stakes, a) <= books.custody(a).vault.balance);
    }
}

/// A fee claim keeps sound books sound.
pub proof fn lemma_claim_keeps_wf(books: Books, admin: Wallet, asset: AssetId)
    requires
        books.wf(),
        books.claim_fees(admin, asset) is Ok,
    ensures
        books.claim_fees(admin, asset)->Ok_0.0.wf(),
{
    let custody = books.custody(asset);
    let done = claim_outcome(asset, books.config->0, admin, custody.fees)->Ok_0;
    let pool = Custody { fees: done.fees, ..custody };
    let after = books.claim_fees(admin, asset)->Ok_0.0;
    lemma_custody_tagged(books.pools, asset);
    lemma_put_custody(books.pools, pool);
    assert forall|a: AssetId| #[trigger]
        locked(after.stakes, a) <= after.custody(a).vault.balance by {
        assert(locked(books.stakes, a) <= books.custody(a).vault.balance);
    }
}

/// Solvency: sound books never refuse a withdrawal for want of funds in the
/// vault, and never find a stake recorded under another depositor's name.
pub proof fn lemma_vault_covers_withdrawal(books: Books, user: Wallet, asset: AssetId, now: i64)
    requires
        books.wf(),
    ensures
        books.withdraw(user, asset, now) != Err::<(Books, Wallet, Settlement), CustomError>(
            CustomError::InsufficientVaultBalance,
        ),
        books.withdraw(user, asset, now) != Err::<(Books, Wallet, Settlement), CustomError>(
            CustomError::UnauthorizedUser,
        ),
{
    lemma_custody_tagged(books.pools, asset);
    lemma_stake_tagged(books.stakes, user.owner, asset);
    assert(locked(books.stakes, asset) <= books.custody(asset).vault.balance);
}

} // verus!
