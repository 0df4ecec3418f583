//! The books over time: what holds after any sequence of requests.
//!
//! Books that start without custody and stakes and change only through the
//! four operations stay sound, and their balances are exactly what the
//! requests moved: a vault holds what was deposited less what was released,
//! which is what its live stakes lock, and a fee account holds what was
//! charged less what was claimed.

use vstd::prelude::*;
use crate::accounts::Wallet;
use crate::books::{locked, Books};
use crate::identity::{AssetId, Identity};
use crate::error::CustomError;
use crate::fee::Settlement;
use crate::laws::{
    lemma_books_claim, lemma_books_deposit, lemma_books_withdraw, lemma_books_withdraw_once,
};

verus! {

/// One request to the engine.
pub enum Request {
    /// Create the configuration for `admin`.
    Initialize { admin: Identity },
    /// Deposit `amount` of `asset` from the balance `user` at `now`.
    Deposit { user: Wallet, asset: AssetId, amount: u64, now: i64 },
    /// Withdraw the stake of `asset` into the balance `user` at `now`.
    Withdraw { user: Wallet, asset: AssetId, now: i64 },
    /// Claim the fees collected in `asset` into the balance `claimant`.
    ClaimFees { claimant: Wallet, asset: AssetId },
}

impl Request {
    /// Whether this asks to withdraw the stake of `asset` that `owner` holds.
    pub open spec fn withdraws(self, owner: Identity, asset: AssetId) -> bool {
        match self {
            Request::Withdraw { user, asset: of, now } => user.owner == owner && of == asset,
            _ => false,
        }
    }
}

/// What one request moves in one asset.
pub struct Flows {
    /// What went from depositors into the vault.
    pub deposited: int,
    /// What left the vault: payouts and fees together.
    pub released: int,
    /// What went from the vault into the fee account.
    pub charged: int,
    /// What went from the fee account to the administrator.
    pub claimed: int,
}

impl Flows {
    /// Nothing moved.
    pub open spec fn none() -> Flows {
        Flows { deposited: 0, released: 0, charged: 0, claimed: 0 }
    }

    /// Both movements together.
    pub open spec fn plus(self, other: Flows) -> Flows {
        Flows {
            deposited: self.deposited + other.deposited,
            released: self.released + other.released,
            charged: self.charged + other.charged,
            claimed: self.claimed + other.claimed,
        }
    }
}

impl Books {
    /// The books after `request` was served; a request that is refused
    /// leaves them as they are.
    pub open spec fn step(self, request: Request) -> Books {
        match request {
            Request::Initialize { admin } => match self.initialize(admin) {
                Ok(after) => after,
                Err(_) => self,
            },
            Request::Deposit { user, asset, amount, now } => match self.deposit(
                user,
                asset,
                amount,
                now,
            ) {
                Ok((after, _)) => after,
                Err(_) => self,
            },
            Request::Withdraw { user, asset, now } => match self.withdraw(user, asset, now) {
                Ok((after, _, _)) => after,
                Err(_) => self,
            },
            Request::ClaimFees { claimant, asset } => match self.claim_fees(claimant, asset) {
                Ok((after, _, _)) => after,
                Err(_) => self,
            },
        }
    }

    /// Whether these books refuse `request` for the reason `error`.
    pub open spec fn refuses(self, request: Request, error: CustomError) -> bool {
        match request {
            Request::Initialize { admin } => self.initialize(admin) == Err::<Books, CustomError>(
                error,
            ),
            Request::Deposit { user, asset, amount, now } => self.deposit(user, asset, amount, now)
                == Err::<(Books, Wallet), CustomError>(error),
            Request::Withdraw { user, asset, now } => self.withdraw(user, asset, now) == Err::<
                (Books, Wallet, Settlement),
                CustomError,
            >(error),
            Request::ClaimFees { claimant, asset } => self.claim_fees(claimant, asset) == Err::<
                (Books, Wallet, u64),
                CustomError,
            >(error),
        }
    }

    /// What serving `request` on these books moves in `asset`; a request
    /// that is refused, or that is about another asset, moves nothing.
    pub open spec fn moved(self, request: Request, asset: AssetId) -> Flows {
        match request {
            Request::Initialize { admin } => Flows::none(),
            Request::Deposit { user, asset: of, amount, now } => if of == asset && self.deposit(
                user,
                of,
                amount,
                now,
            ) is Ok {
                Flows { deposited: amount as int, ..Flows::none() }
            } else {
                Flows::none()
            },
            Request::Withdraw { user, asset: of, now } => match self.withdraw(user, of, now) {
                Ok((_, _, parts)) => if of == asset {
                    Flows {
                        released: parts.payout + parts.fee,
                        charged: parts.fee as int,
                        ..Flows::none()
                    }
                } else {
                    Flows::none()
                },
                Err(_) => Flows::none(),
            },
            Request::ClaimFees { claimant, asset: of } => match self.claim_fees(claimant, of) {
                Ok((_, _, amount)) => if of == asset {
                    Flows { claimed: amount as int, ..Flows::none() }
                } else {
                    Flows::none()
                },
                Err(_) => Flows::none(),
            },
        }
    }

    /// The books after all of `requests` were served in order.
    pub open spec fn replay(self, requests: Seq<Request>) -> Books
        decreases requests.len(),
    {
        if requests.len() == 0 {
            self
        } else {
            self.replay(requests.drop_last()).step(requests.last())
        }
    }

    /// What serving all of `requests` in order moves in `asset`.
    pub open spec fn flows(self, requests: Seq<Request>, asset: AssetId) -> Flows
        decreases requests.len(),
    {
        if requests.len() == 0 {
            Flows::none()
        } else {
            self.flows(requests.drop_last(), asset).plus(
                self.replay(requests.drop_last()).moved(requests.last(), asset),
            )
        }
    }

    /// The books hold neither custody nor stakes.
    pub open spec fn blank(self) -> bool {
        self.pools.len() == 0 && self.stakes.len() == 0
    }
}

/// Blank books are sound and hold nothing of any asset.
pub proof fn lemma_blank(books: Books, asset: AssetId)
    requires
        books.blank(),
    ensures
        books.wf(),
        books.custody(asset).vault.balance == 0,
        books.custody(asset).fees.balance == 0,
        locked(books.stakes, asset) == 0,
{
    assert forall|a: AssetId| #[trigger]
        locked(books.stakes, a) <= books.custody(a).vault.balance by {}
}

/// One request keeps sound books sound, changes the configuration only by
/// creating it, and changes the balances of each asset by exactly what it
/// moves in that asset.
pub proof fn lemma_step(books: Books, request: Request, asset: AssetId)
    requires
        books.wf(),
    ensures
        ({
            let after = books.step(request);
            let moved = books.moved(request, asset);
            &&& after.wf()
            &&& books.config is Some ==> after.config == books.config
            &&& after.custody(asset).vault.balance == books.custody(asset).vault.balance
                + moved.deposited - moved.released
            &&& after.custody(asset).fees.balance == books.custody(asset).fees.balance
                + moved.charged - moved.claimed
            &&& locked(after.stakes, asset) == locked(books.stakes, asset) + moved.deposited
                - moved.released
            &&& moved.deposited >= 0 && moved.released >= 0 && moved.charged >= 0 && moved.claimed
                >= 0
        }),
{
    match request {
        Request::Initialize { admin } => {},
        Request::Deposit { user, asset: of, amount, now } => {
            if books.deposit(user, of, amount, now) is Ok {
                lemma_books_deposit(books, user, of, amount, now, user.owner, asset);
            }
        },
        Request::Withdraw { user, asset: of, now } => {
            if books.withdraw(user, of, now) is Ok {
                lemma_books_withdraw(books, user, of, now, user.owner, asset);
            }
        },
        Request::ClaimFees { claimant, asset: of } => {
            if books.claim_fees(claimant, of) is Ok {
                lemma_books_claim(books, claimant, of, asset);
            }
        },
    }
}

/// Exact accounting: books that start blank and serve any requests are
/// sound, keep the configuration they started with or the first one created,
/// hold in each vault what was deposited less what was released, which is
/// what the live stakes of that asset lock, and hold in each fee account what
/// was charged less what was claimed.
pub proof fn lemma_history(start: Books, requests: Seq<Request>, asset: AssetId)
    requires
        start.blank(),
    ensures
        ({
            let end = start.replay(requests);
            let flows = start.flows(requests, asset);
            &&& end.wf()
            &&& start.config is Some ==> end.config == start.config
            &&& end.custody(asset).vault.balance == flows.deposited - flows.released
            &&& end.custody(asset).vault.balance == locked(end.stakes, asset)
            &&& end.custody(asset).fees.balance == flows.charged - flows.claimed
        }),
    decreases requests.len(),
{
    if requests.len() == 0 {
        lemma_blank(start, asset);
    } else {
        lemma_history(start, requests.drop_last(), asset);
        lemma_step(start.replay(requests.drop_last()), requests.last(), asset);
    }
}

/// One of many: when several withdrawals of the same stake are served one
/// after the other and the first succeeds, every other one is refused because
/// the stake was paid out before, and the books stay as the first left them.
pub proof fn lemma_one_of_many_withdrawals(
    books: Books,
    first: Wallet,
    asset: AssetId,
    now: i64,
    others: Seq<Request>,
)
    requires
        books.wf(),
        books.withdraw(first, asset, now) is Ok,
        forall|i: int|
            0 <= i < others.len() ==> (#[trigger] others[i]).withdraws(first.owner, asset),
    ensures
        ({
            let after = books.withdraw(first, asset, now)->Ok_0.0;
            &&& after.replay(others) == after
            &&& forall|i: int|
                0 <= i < others.len() ==> after.refuses(
                    #[trigger] others[i],
                    CustomError::AlreadyWithdrawn,
                )
        }),
    decreases others.len(),
{
    let after = books.withdraw(first, asset, now)->Ok_0.0;
    assert forall|i: int| 0 <= i < others.len() implies after.refuses(
        #[trigger] others[i],
        CustomError::AlreadyWithdrawn,
    ) by {
        assert(others[i].withdraws(first.owner, asset));
        match others[i] {
            Request::Withdraw { user, asset: of, now: later } => {
                lemma_books_withdraw_once(books, first, asset, now, user, later);
            },
            _ => {},
        }
    }
    if others.len() > 0 {
        let earlier = others.drop_last();
        assert forall|i: int| 0 <= i < earlier.len() implies (#[trigger] earlier[i]).withdraws(
            first.owner,
            asset,
        ) by {
            assert(earlier[i] == others[i]);
        }
        lemma_one_of_many_withdrawals(books, first, asset, now, earlier);
        assert(after.refuses(others[others.len() - 1], CustomError::AlreadyWithdrawn));
    }
}

} // verus!
