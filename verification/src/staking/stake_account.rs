//! One stake: what was locked, for how long, and the weight it carries.

use crate::identity::Pubkey;
use crate::math::{checked_proportion, proportion};
use crate::staking::error::StakingError;
use vstd::prelude::*;

verus! {

/// Seconds in a month of 30 days.
pub const SECONDS_PER_MONTH: i64 = 2_592_000;

/// Seconds in a year of 365 days.
pub const SECONDS_PER_YEAR: i64 = 31_536_000;

/// Ordinal class of a stake, by its voting weight.
#[derive(Clone, Copy, Debug, PartialEq, Eq, Hash, Structural)]
pub enum StakeTier {
    /// Weight below 1,000.
    Starter,
    /// Weight from 1,000.
    Bronze,
    /// Weight from 10,000.
    Silver,
    /// Weight from 50,000.
    Gold,
    /// Weight from 100,000.
    Diamond,
}

/// The record of one stake. Once created, only `withdrawn` ever changes, from
/// `false` to `true`; the record is kept afterwards as history.
#[derive(Clone, Copy, Debug, PartialEq, Eq)]
pub struct StakeAccount {
    /// Owner of the stake.
    pub authority: Pubkey,
    /// Amount locked, in smallest units.
    pub staked_amount: u64,
    /// Lock duration in seconds.
    pub stake_duration: i64,
    /// Time at which the stake was made.
    pub staked_at: i64,
    /// Time from which the stake can be withdrawn.
    pub unlock_at: i64,
    /// Voting weight granted for the stake.
    pub xnos: u64,
    /// Multiplier applied to the amount, in hundredths.
    pub multiplier_bps: u16,
    /// Tier of the voting weight.
    pub tier: StakeTier,
    /// Whether the amount has been returned to the owner.
    pub withdrawn: bool,
    /// Address-derivation seed of the record that stores this value.
    pub bump: u8,
}

/// The multiplier, in hundredths, that a lock of `duration_seconds` earns:
/// 100 below one month, 150 from one month, 200 from three, 300 from six,
/// 400 from one year.
pub open spec fn multiplier_for(duration_seconds: i64) -> u16 {
    if duration_seconds >= SECONDS_PER_YEAR {
        400
    } else if duration_seconds >= 6 * SECONDS_PER_MONTH {
        300
    } else if duration_seconds >= 3 * SECONDS_PER_MONTH {
        200
    } else if duration_seconds >= SECONDS_PER_MONTH {
        150
    } else {
        100
    }
}

/// The voting weight of `amount` locked for `duration_seconds`, as an
/// unbounded integer: `floor(amount * multiplier / 100)`.
pub open spec fn weight_for(amount: u64, duration_seconds: i64) -> int {
    proportion(amount as int, multiplier_for(duration_seconds) as int, 100)
}

/// The tier of a voting weight.
pub open spec fn tier_for(xnos: u64) -> StakeTier {
    if xnos >= 100_000 {
        StakeTier::Diamond
    } else if xnos >= 50_000 {
        StakeTier::Gold
    } else if xnos >= 10_000 {
        StakeTier::Silver
    } else if xnos >= 1_000 {
        StakeTier::Bronze
    } else {
        StakeTier::Starter
    }
}

impl StakeAccount {
    /// The weight this stake contributes to the global total: its `xnos`
    /// while it is locked or withdrawable, nothing once withdrawn.
    pub open spec fn spec_voting_weight(&self) -> u64 {
        if self.withdrawn {
            0
        } else {
            self.xnos
        }
    }

    /// The amount this stake contributes to the global total staked.
    pub open spec fn spec_active_amount(&self) -> u64 {
        if self.withdrawn {
            0
        } else {
            self.staked_amount
        }
    }

    /// Voting weight and multiplier for `amount` locked `duration_seconds`.
    ///
    /// Fails with `CalculationOverflow` exactly when the weight does not fit
    /// in 64 bits.
    pub fn calculate_xnos(amount: u64, duration_seconds: i64) -> (result: Result<
        (u64, u16),
        StakingError,
    >)
        ensures
            match result {
                Ok((xnos, multiplier_bps)) => {
                    &&& multiplier_bps == multiplier_for(duration_seconds)
                    &&& xnos == weight_for(amount, duration_seconds)
                },
                Err(e) => {
                    &&& e == StakingError::CalculationOverflow
                    &&& weight_for(amount, duration_seconds) > u64::MAX
                },
            },
    {
        let multiplier_bps: u16 = if duration_seconds >= SECONDS_PER_YEAR {
            400
        } else if duration_seconds >= 6 * SECONDS_PER_MONTH {
            300
        } else if duration_seconds >= 3 * SECONDS_PER_MONTH {
            200
        } else if duration_seconds >= SECONDS_PER_MONTH {
            150
        } else {
            100
        };
        match checked_proportion(amount, multiplier_bps as u64, 100) {
            Some(xnos) => Ok((xnos, multiplier_bps)),
            None => Err(StakingError::CalculationOverflow),
        }
    }

    /// Tier of a voting weight: Diamond from 100,000, Gold from 50,000,
    /// Silver from 10,000, Bronze from 1,000, Starter below.
    pub fn calculate_tier(xnos: u64) -> (tier: StakeTier)
        ensures
            tier == tier_for(xnos),
    {
        if xnos >= 100_000 {
            StakeTier::Diamond
        } else if xnos >= 50_000 {
            StakeTier::Gold
        } else if xnos >= 10_000 {
            StakeTier::Silver
        } else if xnos >= 1_000 {
            StakeTier::Bronze
        } else {
            StakeTier::Starter
        }
    }

    /// The weight this stake currently carries: `xnos` until it is
    /// withdrawn, zero afterwards.
    pub fn voting_weight(&self) -> (weight: u64)
        ensures
            weight == self.spec_voting_weight(),
    {
        if self.withdrawn {
            0
        } else {
            self.xnos
        }
    }
}

} // verus!
