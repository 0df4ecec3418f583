//! The time lock on a deposit.

use vstd::prelude::*;

verus! {

/// Seconds during which a deposit is staked.
pub const STAKING_PERIOD: i64 = 60;

/// Seconds a deposit stays locked once the staking period is over.
pub const LOCKING_PERIOD: i64 = 30;

/// The first second at which a deposit made at `deposited_at` may be paid out.
pub open spec fn unlock_time(deposited_at: int) -> int {
    deposited_at + STAKING_PERIOD + LOCKING_PERIOD
}

/// Whether a deposit made at `deposited_at` may be paid out at `now`.
pub open spec fn lock_over(deposited_at: int, now: int) -> bool {
    now >= unlock_time(deposited_at)
}

/// Decides whether a deposit made at `deposited_at` may be paid out at `now`.
///
/// The bound is inclusive. A deposit stamped so late that its unlock time lies
/// beyond the last representable second is never unlocked.
pub fn lock_ended(deposited_at: i64, now: i64) -> (ended: bool)
    ensures
        ended == lock_over(deposited_at as int, now as int),
{
    match deposited_at.checked_add(STAKING_PERIOD + LOCKING_PERIOD) {
        Some(unlock) => now >= unlock,
        None => false,
    }
}

} // verus!
