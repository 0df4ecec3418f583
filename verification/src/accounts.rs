//! The records the engine keeps and the balances it moves value between.

use vstd::prelude::*;
use crate::identity::{AssetId, Identity};

verus! {

/// The fee rate a fresh configuration starts with: three percent.
pub const DEFAULT_FEE_BASIS_POINTS: u16 = 300;

/// The number of basis points that make the whole.
pub const BASIS_POINTS_DENOMINATOR: u64 = 10_000;

/// The global configuration: who administers the engine and what a withdrawal costs.
#[derive(Clone, Copy, Debug, PartialEq, Eq, Structural)]
pub struct TokenQuestState {
    /// The one identity that may claim collected fees.
    pub admin: Identity,
    /// The fee rate in hundredths of a percent.
    pub fee_percentage: u16,
    /// Whether withdrawals are charged the fee at all.
    pub user_tax_on_withdraw: bool,
}

impl TokenQuestState {
    /// A configuration is sound when its rate does not exceed the whole.
    pub open spec fn wf(self) -> bool {
        self.fee_percentage <= BASIS_POINTS_DENOMINATOR
    }

    /// What a configuration holds right after it is created for `admin`.
    pub open spec fn initial(admin: Identity) -> TokenQuestState {
        TokenQuestState {
            admin,
            fee_percentage: DEFAULT_FEE_BASIS_POINTS,
            user_tax_on_withdraw: false,
        }
    }

    /// The configuration every engine starts with: `admin` administers it,
    /// the rate is three percent, and withdrawals are not charged.
    pub fn new(admin: Identity) -> (state: TokenQuestState)
        ensures
            state == Self::initial(admin),
            state.wf(),
    {
        TokenQuestState {
            admin,
            fee_percentage: DEFAULT_FEE_BASIS_POINTS,
            user_tax_on_withdraw: false,
        }
    }
}

/// The bookkeeping entry of one deposit.
#[derive(Clone, Copy, Debug, PartialEq, Eq, Structural)]
pub struct StakeAccount {
    /// Who made the deposit and alone may take it back.
    pub user: Identity,
    /// What was deposited.
    pub asset: AssetId,
    /// How much was deposited.
    pub amount: u64,
    /// When the deposit was made, in seconds.
    pub stake_timestamp: i64,
    /// Whether the deposit has been paid out. Once set it stays set.
    pub is_withdrawn: bool,
}

impl StakeAccount {
    /// A record is sound when it stands for a deposit of something.
    pub open spec fn wf(self) -> bool {
        self.amount > 0
    }

    /// Whether the record still holds value in the vault.
    pub open spec fn active(self) -> bool {
        !self.is_withdrawn
    }

    /// The record of a deposit of `amount` of `asset` made by `user` at `now`.
    pub open spec fn opened(user: Identity, asset: AssetId, amount: u64, now: i64) -> StakeAccount {
        StakeAccount { user, asset, amount, stake_timestamp: now, is_withdrawn: false }
    }

    /// The same record once it has been paid out.
    pub open spec fn closed(self) -> StakeAccount {
        StakeAccount { is_withdrawn: true, ..self }
    }
}

/// The pooled custody balance of one asset.
#[derive(Clone, Copy, Debug, PartialEq, Eq, Structural)]
pub struct VaultAccount {
    /// The asset the vault holds.
    pub asset: AssetId,
    /// How much of it the vault holds.
    pub balance: u64,
}

/// The fees collected in one asset and not yet claimed.
#[derive(Clone, Copy, Debug, PartialEq, Eq, Structural)]
pub struct FeeAccount {
    /// The asset the fees were charged in.
    pub asset: AssetId,
    /// How much is waiting to be claimed.
    pub balance: u64,
}

/// A balance of one asset that a party holds outside the engine.
#[derive(Clone, Copy, Debug, PartialEq, Eq, Structural)]
pub struct Wallet {
    /// Who controls the balance.
    pub owner: Identity,
    /// The asset the balance is counted in.
    pub asset: AssetId,
    /// How much the party holds.
    pub balance: u64,
}

} // verus!
