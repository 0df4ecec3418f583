//! A time-locked custodial vault: deposits are pooled per asset, locked for a
//! fixed delay, and paid out once, less an optional fee.
//!
//! The operations exist in two forms. The functions of [`instructions`] act
//! on the accounts that a caller hands in; the [`engine::Engine`] keeps the
//! accounts itself and finds them by depositor and asset. Both follow the
//! same decisions, which [`processor`] states, and [`laws`] proves what holds
//! of all of them.

pub mod accounts;
pub mod books;
pub mod engine;
pub mod error;
pub mod fee;
pub mod history;
pub mod identity;
pub mod instructions;
pub mod laws;
pub mod lock;
pub mod processor;
pub mod transfer;

pub use accounts::{
    FeeAccount, StakeAccount, TokenQuestState, VaultAccount, Wallet, BASIS_POINTS_DENOMINATOR,
    DEFAULT_FEE_BASIS_POINTS,
};
pub use books::Custody;
pub use engine::Engine;
pub use error::CustomError;
pub use fee::{settle, Settlement};
pub use identity::{AssetId, Identity};
pub use instructions::{
    deposit_sol, deposit_spl, initialize, withdraw_fees_sol, withdraw_fees_spl, withdraw_sol,
    withdraw_spl, DepositSOL, DepositSPL, Initialize, WithdrawFeeSOL, WithdrawFeeSPL, WithdrawSOL,
    WithdrawSPL,
};
pub use lock::{lock_ended, LOCKING_PERIOD, STAKING_PERIOD};
