//! Staking and unstaking against the global configuration.

use crate::identity::Pubkey;
use crate::staking::config::StakingConfig;
use crate::staking::error::StakingError;
use crate::staking::stake_account::{multiplier_for, tier_for, weight_for, StakeAccount};
use vstd::prelude::*;

verus! {

/// Why `stake` rejects a request, if it does. The checks are made in this
/// order, and every arithmetic check comes before any change.
pub open spec fn stake_rejection(
    config: StakingConfig,
    amount: u64,
    duration_seconds: i64,
    now: i64,
) -> Option<StakingError> {
    if !config.staking_enabled {
        Some(StakingError::StakingDisabled)
    } else if amount == 0 {
        Some(StakingError::InvalidAmount)
    } else if amount < config.min_stake_amount {
        Some(StakingError::BelowMinimum)
    } else if amount > config.max_stake_amount {
        Some(StakingError::AboveMaximum)
    } else if duration_seconds < config.min_duration {
        Some(StakingError::DurationTooShort)
    } else if duration_seconds > config.max_duration {
        Some(StakingError::DurationTooLong)
    } else if weight_for(amount, duration_seconds) > u64::MAX
        || now + duration_seconds > i64::MAX
        || now + duration_seconds < i64::MIN
        || config.total_staked + amount > u64::MAX
        || config.total_xnos + weight_for(amount, duration_seconds) > u64::MAX
        || config.total_stakers + 1 > u64::MAX {
        Some(StakingError::CalculationOverflow)
    } else {
        None
    }
}

/// The record that an accepted `stake` creates.
pub open spec fn new_stake(
    authority: Pubkey,
    amount: u64,
    duration_seconds: i64,
    now: i64,
    bump: u8,
) -> StakeAccount {
    StakeAccount {
        authority,
        staked_amount: amount,
        stake_duration: duration_seconds,
        staked_at: now,
        unlock_at: (now + duration_seconds) as i64,
        xnos: weight_for(amount, duration_seconds) as u64,
        multiplier_bps: multiplier_for(duration_seconds),
        tier: tier_for(weight_for(amount, duration_seconds) as u64),
        withdrawn: false,
        bump,
    }
}

/// The configuration after a stake of `amount` with weight `xnos` was
/// accepted: both totals grow by exactly what was added, and the number of
/// stakers by one.
pub open spec fn config_after_stake(config: StakingConfig, amount: u64, xnos: u64) -> StakingConfig {
    StakingConfig {
        total_staked: (config.total_staked + amount) as u64,
        total_xnos: (config.total_xnos + xnos) as u64,
        total_stakers: (config.total_stakers + 1) as u64,
        ..config
    }
}

/// Why `unstake` rejects a request, if it does, in the order of the checks.
pub open spec fn unstake_rejection(
    config: StakingConfig,
    stake_account: StakeAccount,
    caller: Pubkey,
    now: i64,
) -> Option<StakingError> {
    if stake_account.authority != caller {
        Some(StakingError::Unauthorized)
    } else if now < stake_account.unlock_at {
        Some(StakingError::StakeLocked)
    } else if stake_account.withdrawn {
        Some(StakingError::AlreadyWithdrawn)
    } else if config.total_staked < stake_account.staked_amount || config.total_xnos
        < stake_account.xnos {
        Some(StakingError::CalculationOverflow)
    } else {
        None
    }
}

/// The configuration after the stake `stake_account` was withdrawn: both
/// totals shrink by exactly what the stake had added. The number of stakers
/// is advisory and stops at zero.
pub open spec fn config_after_unstake(
    config: StakingConfig,
    stake_account: StakeAccount,
) -> StakingConfig {
    StakingConfig {
        total_staked: (config.total_staked - stake_account.staked_amount) as u64,
        total_xnos: (config.total_xnos - stake_account.xnos) as u64,
        total_stakers: if config.total_stakers == 0 {
            0
        } else {
            (config.total_stakers - 1) as u64
        },
        ..config
    }
}

/// Locks `amount` for `duration_seconds`, starting at `now`, on behalf of
/// `authority`.
///
/// On success the new stake record is returned and the totals of `config`
/// have grown by the amount, by the voting weight and by one staker. The
/// caller moves `amount` from the owner into custody. On failure `config` is
/// unchanged and the error is the first of `stake_rejection` that applies.
pub fn stake(
    config: &mut StakingConfig,
    authority: Pubkey,
    amount: u64,
    duration_seconds: i64,
    now: i64,
    bump: u8,
) -> (result: Result<StakeAccount, StakingError>)
    ensures
        match result {
            Ok(stake_account) => {
                &&& stake_rejection(*old(config), amount, duration_seconds, now) is None
                &&& stake_account == new_stake(authority, amount, duration_seconds, now, bump)
                &&& *final(config) == config_after_stake(*old(config), amount, stake_account.xnos)
            },
            Err(e) => {
                &&& stake_rejection(*old(config), amount, duration_seconds, now) == Some(e)
                &&& *final(config) == *old(config)
            },
        },
{
    if !config.staking_enabled {
        return Err(StakingError::StakingDisabled);
    }
    if amount == 0 {
        return Err(StakingError::InvalidAmount);
    }
    if amount < config.min_stake_amount {
        return Err(StakingError::BelowMinimum);
    }
    if amount > config.max_stake_amount {
        return Err(StakingError::AboveMaximum);
    }
    if duration_seconds < config.min_duration {
        return Err(StakingError::DurationTooShort);
    }
    if duration_seconds > config.max_duration {
        return Err(StakingError::DurationTooLong);
    }
    let (xnos, multiplier_bps) = match StakeAccount::calculate_xnos(amount, duration_seconds) {
        Ok(weight) => weight,
        Err(e) => {
            return Err(e);
        },
    };
    let tier = StakeAccount::calculate_tier(xnos);
    let unlock_at = match now.checked_add(duration_seconds) {
        Some(t) => t,
        None => {
            return Err(StakingError::CalculationOverflow);
        },
    };
    let total_staked = match config.total_staked.checked_add(amount) {
        Some(t) => t,
        None => {
            return Err(StakingError::CalculationOverflow);
        },
    };
    let total_xnos = match config.total_xnos.checked_add(xnos) {
        Some(t) => t,
        None => {
            return Err(StakingError::CalculationOverflow);
        },
    };
    let total_stakers = match config.total_stakers.checked_add(1) {
        Some(t) => t,
        None => {
            return Err(StakingError::CalculationOverflow);
        },
    };
    config.total_staked = total_staked;
    config.total_xnos = total_xnos;
    config.total_stakers = total_stakers;
    Ok(
        StakeAccount {
            authority,
            staked_amount: amount,
            stake_duration: duration_seconds,
            staked_at: now,
            unlock_at,
            xnos,
            multiplier_bps,
            tier,
            withdrawn: false,
            bump,
        },
    )
}

/// Withdraws the stake `stake_account` at time `now` on behalf of `caller`.
///
/// On success the amount to hand back to the owner is returned, the record
/// is marked withdrawn, and the totals of `config` have shrunk by the amount
/// and the voting weight of the stake. On failure nothing has changed and the
/// error is the first of `unstake_rejection` that applies.
pub fn unstake(
    config: &mut StakingConfig,
    stake_account: &mut StakeAccount,
    caller: Pubkey,
    now: i64,
) -> (result: Result<u64, StakingError>)
    ensures
        match result {
            Ok(amount) => {
                &&& unstake_rejection(*old(config), *old(stake_account), caller, now) is None
                &&& amount == old(stake_account).staked_amount
                &&& *final(stake_account) == (StakeAccount {
                    withdrawn: true,
                    ..*old(stake_account)
                })
                &&& *final(config) == config_after_unstake(*old(config), *old(stake_account))
            },
            Err(e) => {
                &&& unstake_rejection(*old(config), *old(stake_account), caller, now) == Some(e)
                &&& *final(stake_account) == *old(stake_account)
                &&& *final(config) == *old(config)
            },
        },
{
    if stake_account.authority != caller {
        return Err(StakingError::Unauthorized);
    }
    if now < stake_account.unlock_at {
        return Err(StakingError::StakeLocked);
    }
    if stake_account.withdrawn {
        return Err(StakingError::AlreadyWithdrawn);
    }
    let total_staked = match config.total_staked.checked_sub(stake_account.staked_amount) {
        Some(t) => t,
        None => {
            return Err(StakingError::CalculationOverflow);
        },
    };
    let total_xnos = match config.total_xnos.checked_sub(stake_account.xnos) {
        Some(t) => t,
        None => {
            return Err(StakingError::CalculationOverflow);
        },
    };
    config.total_staked = total_staked;
    config.total_xnos = total_xnos;
    config.total_stakers = config.total_stakers.saturating_sub(1);
    stake_account.withdrawn = true;
    Ok(stake_account.staked_amount)
}

} // verus!
