//! Global parameters and running totals of the stake ledger.

use crate::identity::Pubkey;
use crate::staking::error::StakingError;
use vstd::prelude::*;

verus! {

/// Shortest lock accepted by default: one day, in seconds.
pub const DEFAULT_MIN_DURATION: i64 = 86_400;

/// Longest lock accepted by default: two years of 365 days, in seconds.
pub const DEFAULT_MAX_DURATION: i64 = 63_072_000;

/// Smallest amount that can be staked by default.
pub const DEFAULT_MIN_STAKE_AMOUNT: u64 = 1_000_000_000;

/// Largest amount that can be staked by default.
pub const DEFAULT_MAX_STAKE_AMOUNT: u64 = 1_000_000_000_000_000;

/// Voting weight from which each tier above the lowest begins.
#[derive(Clone, Copy, Debug, PartialEq, Eq, Structural)]
pub struct TierThresholds {
    pub bronze: u64,
    pub silver: u64,
    pub gold: u64,
    pub diamond: u64,
}

/// Bounds on what may be staked, and the totals over all active stakes.
#[derive(Clone, Copy, Debug, PartialEq, Eq)]
pub struct StakingConfig {
    /// Who may change the configuration.
    pub authority: Pubkey,
    /// Smallest amount accepted by `stake`.
    pub min_stake_amount: u64,
    /// Largest amount accepted by `stake`.
    pub max_stake_amount: u64,
    /// Shortest lock accepted by `stake`, in seconds.
    pub min_duration: i64,
    /// Longest lock accepted by `stake`, in seconds.
    pub max_duration: i64,
    /// Weight thresholds of the tiers.
    pub tier_thresholds: TierThresholds,
    /// Whether `stake` accepts new stakes.
    pub staking_enabled: bool,
    /// Sum of the amounts of all stakes not yet withdrawn.
    pub total_staked: u64,
    /// Sum of the voting weights of all stakes not yet withdrawn.
    pub total_xnos: u64,
    /// Number of stakes not yet withdrawn.
    pub total_stakers: u64,
    /// Address-derivation seed of the record that stores this value.
    pub bump: u8,
}

impl TierThresholds {
    /// The thresholds a new configuration starts with.
    pub open spec fn spec_default() -> TierThresholds {
        TierThresholds { bronze: 1_000, silver: 10_000, gold: 50_000, diamond: 100_000 }
    }
}

impl StakingConfig {
    /// The bounds a new configuration starts with: minimum stake, maximum
    /// stake, minimum duration, maximum duration, tier thresholds.
    pub open spec fn spec_default_config() -> (u64, u64, i64, i64, TierThresholds) {
        (
            DEFAULT_MIN_STAKE_AMOUNT,
            DEFAULT_MAX_STAKE_AMOUNT,
            DEFAULT_MIN_DURATION,
            DEFAULT_MAX_DURATION,
            TierThresholds::spec_default(),
        )
    }

    /// The configuration that `initialize_config` creates for `authority`.
    pub open spec fn spec_initial(authority: Pubkey, bump: u8) -> StakingConfig {
        StakingConfig {
            authority,
            min_stake_amount: DEFAULT_MIN_STAKE_AMOUNT,
            max_stake_amount: DEFAULT_MAX_STAKE_AMOUNT,
            min_duration: DEFAULT_MIN_DURATION,
            max_duration: DEFAULT_MAX_DURATION,
            tier_thresholds: TierThresholds::spec_default(),
            staking_enabled: true,
            total_staked: 0,
            total_xnos: 0,
            total_stakers: 0,
            bump,
        }
    }

    /// Default bounds: a minimum stake of one token of nine decimals, a
    /// maximum of one million tokens, locks from one day to two years, and
    /// tiers at 1,000, 10,000, 50,000 and 100,000 units of weight.
    pub fn default_config() -> (defaults: (u64, u64, i64, i64, TierThresholds))
        ensures
            defaults == Self::spec_default_config(),
    {
        (
            DEFAULT_MIN_STAKE_AMOUNT,
            DEFAULT_MAX_STAKE_AMOUNT,
            DEFAULT_MIN_DURATION,
            DEFAULT_MAX_DURATION,
            TierThresholds { bronze: 1_000, silver: 10_000, gold: 50_000, diamond: 100_000 },
        )
    }

    /// A configuration for `authority` with the default bounds, staking
    /// switched on and all totals at zero.
    pub fn new(authority: Pubkey, bump: u8) -> (config: StakingConfig)
        ensures
            config == Self::spec_initial(authority, bump),
    {
        let (min_stake, max_stake, min_duration, max_duration, tier_thresholds) =
            Self::default_config();
        StakingConfig {
            authority,
            min_stake_amount: min_stake,
            max_stake_amount: max_stake,
            min_duration,
            max_duration,
            tier_thresholds,
            staking_enabled: true,
            total_staked: 0,
            total_xnos: 0,
            total_stakers: 0,
            bump,
        }
    }
}

/// Creates the global staking configuration with the default bounds, staking
/// switched on and all totals at zero. `existing` is the configuration that
/// is in place already, if there is one.
///
/// Fails with `AlreadyInitialized` exactly when there is a configuration
/// already.
pub fn initialize_config(
    existing: Option<&StakingConfig>,
    authority: Pubkey,
    bump: u8,
) -> (result: Result<StakingConfig, StakingError>)
    ensures
        match result {
            Ok(config) => {
                &&& existing is None
                &&& config == StakingConfig::spec_initial(authority, bump)
            },
            Err(e) => {
                &&& e == StakingError::AlreadyInitialized
                &&& existing is Some
            },
        },
{
    match existing {
        Some(_) => Err(StakingError::AlreadyInitialized),
        None => Ok(StakingConfig::new(authority, bump)),
    }
}

} // verus!
