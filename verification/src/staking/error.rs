//! Failures of the stake ledger.

use vstd::prelude::*;

verus! {

/// Why a staking operation was rejected. A rejected operation changes
/// nothing.
#[derive(Clone, Copy, Debug, PartialEq, Eq, Hash, Structural)]
pub enum StakingError {
    /// A result does not fit the width of the field that holds it.
    CalculationOverflow,
    /// The lock period of the stake has not ended.
    StakeLocked,
    /// The stake was withdrawn before.
    AlreadyWithdrawn,
    /// The lock duration is below the configured minimum.
    DurationTooShort,
    /// The lock duration is above the configured maximum.
    DurationTooLong,
    /// The amount is zero.
    InvalidAmount,
    /// The amount is below the configured minimum stake.
    BelowMinimum,
    /// The amount is above the configured maximum stake.
    AboveMaximum,
    /// Staking is switched off.
    StakingDisabled,
    /// The caller does not own the stake.
    Unauthorized,
    /// The staking configuration exists already.
    AlreadyInitialized,
}

} // verus!
