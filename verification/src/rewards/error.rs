//! Failures of the reward pool.

use vstd::prelude::*;

verus! {

/// Why a reward operation was rejected. A rejected operation changes
/// nothing.
#[derive(Clone, Copy, Debug, PartialEq, Eq, Hash, Structural)]
pub enum RewardError {
    /// A result does not fit in 64 bits.
    CalculationOverflow,
    /// The pool is empty, or the caller's share of it rounds to nothing.
    NoRewards,
    /// Claims are switched off.
    RewardsDisabled,
    /// The caller carries no voting weight.
    NoStake,
    /// The reward rate is above 10,000 basis points.
    InvalidRate,
}

} // verus!
