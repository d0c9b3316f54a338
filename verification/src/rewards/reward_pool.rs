//! The pool record and the share formula.

use crate::identity::Pubkey;
use crate::math::{
    checked_proportion,
    lemma_proportion_bounded,
    lemma_proportion_monotonic,
    proportion,
};
use crate::rewards::error::RewardError;
use vstd::arithmetic::mul::lemma_mul_is_commutative;
use vstd::prelude::*;

verus! {

/// Largest reward rate: 10,000 basis points, the whole of a job's price.
pub const MAX_REWARD_RATE_BPS: u16 = 10_000;

/// The pool of undistributed rewards and its counters.
#[derive(Clone, Copy, Debug, PartialEq, Eq)]
pub struct RewardPool {
    /// Who may change the pool's parameters.
    pub authority: Pubkey,
    /// Rewards accumulated and not yet claimed.
    pub total_rewards: u64,
    /// Rewards claimed so far.
    pub total_claimed: u64,
    /// Part of each job's price that goes to stakers, in basis points.
    pub reward_rate_bps: u16,
    /// Whether claims are accepted.
    pub enabled: bool,
    /// Number of deposits made into the pool.
    pub total_distributions: u64,
    /// Number of claims paid out.
    pub total_stakers_rewarded: u64,
    /// Address-derivation seed of the record that stores this value.
    pub bump: u8,
}

/// The share of `total_rewards` that falls to `user_xnos` out of
/// `total_xnos`, as an unbounded integer: nothing when there is no weight at
/// all, else `floor(user_xnos * total_rewards / total_xnos)`.
pub open spec fn claimable_amount(total_rewards: u64, user_xnos: u64, total_xnos: u64) -> int {
    if total_xnos == 0 {
        0
    } else {
        proportion(user_xnos as int, total_rewards as int, total_xnos as int)
    }
}

/// The share never shrinks when the claimant's weight grows, the pool and
/// the total weight being the same.
pub proof fn lemma_claimable_monotonic(
    total_rewards: u64,
    lighter: u64,
    heavier: u64,
    total_xnos: u64,
)
    requires
        lighter <= heavier,
    ensures
        claimable_amount(total_rewards, lighter, total_xnos) <= claimable_amount(
            total_rewards,
            heavier,
            total_xnos,
        ),
{
    if total_xnos != 0 {
        lemma_proportion_monotonic(
            lighter as int,
            heavier as int,
            total_rewards as int,
            total_xnos as int,
        );
    }
}

/// A claimant whose weight is part of the total is owed no more than the
/// pool holds.
pub proof fn lemma_claimable_within_pool(total_rewards: u64, user_xnos: u64, total_xnos: u64)
    requires
        user_xnos <= total_xnos,
    ensures
        0 <= claimable_amount(total_rewards, user_xnos, total_xnos) <= total_rewards,
{
    if total_xnos != 0 {
        lemma_mul_is_commutative(user_xnos as int, total_rewards as int);
        lemma_proportion_bounded(total_rewards as int, user_xnos as int, total_xnos as int);
    }
}

/// Why a claim by a staker of weight `user_xnos`, out of `total_xnos`, is
/// rejected, if it is, in the order of the checks.
pub open spec fn claim_rejection(pool: RewardPool, user_xnos: u64, total_xnos: u64) -> Option<
    RewardError,
> {
    if !pool.enabled {
        Some(RewardError::RewardsDisabled)
    } else if user_xnos == 0 {
        Some(RewardError::NoStake)
    } else if pool.total_rewards == 0 {
        Some(RewardError::NoRewards)
    } else if claimable_amount(pool.total_rewards, user_xnos, total_xnos) > u64::MAX {
        Some(RewardError::CalculationOverflow)
    } else if claimable_amount(pool.total_rewards, user_xnos, total_xnos) == 0 {
        Some(RewardError::NoRewards)
    } else {
        None
    }
}

/// The pool after `paid` was paid out of it: the undistributed total is
/// debited and stops at zero, the claimed total and the number of claims
/// grow and stop at the largest 64-bit value.
pub open spec fn pool_after_claim(pool: RewardPool, paid: u64) -> RewardPool {
    RewardPool {
        total_rewards: if paid >= pool.total_rewards {
            0
        } else {
            (pool.total_rewards - paid) as u64
        },
        total_claimed: if pool.total_claimed + paid > u64::MAX {
            u64::MAX
        } else {
            (pool.total_claimed + paid) as u64
        },
        total_stakers_rewarded: if pool.total_stakers_rewarded == u64::MAX {
            u64::MAX
        } else {
            (pool.total_stakers_rewarded + 1) as u64
        },
        ..pool
    }
}

/// One request made to a pool.
pub enum PoolRequest {
    /// Add `amount` to the pool.
    Deposit { amount: u64 },
    /// Claim the share of a staker of weight `user_xnos` while the total
    /// weight is `total_xnos`.
    Claim { user_xnos: u64, total_xnos: u64 },
}

/// Whether the claimant's weight is part of the total weight it is measured
/// against. Deposits are always in order.
pub open spec fn weight_within_total(request: PoolRequest) -> bool {
    match request {
        PoolRequest::Deposit { .. } => true,
        PoolRequest::Claim { user_xnos, total_xnos } => user_xnos <= total_xnos,
    }
}

/// What the request adds to the pool: the amount of an accepted deposit.
pub open spec fn deposited_by(pool: RewardPool, request: PoolRequest) -> nat {
    match request {
        PoolRequest::Deposit { amount } => if pool.total_rewards + amount <= u64::MAX {
            amount as nat
        } else {
            0
        },
        PoolRequest::Claim { .. } => 0,
    }
}

/// What the request pays out of the pool: the share of an accepted claim.
pub open spec fn paid_by(pool: RewardPool, request: PoolRequest) -> nat {
    match request {
        PoolRequest::Deposit { .. } => 0,
        PoolRequest::Claim { user_xnos, total_xnos } => if claim_rejection(
            pool,
            user_xnos,
            total_xnos,
        ) is None {
            claimable_amount(pool.total_rewards, user_xnos, total_xnos) as nat
        } else {
            0
        },
    }
}

/// The pool after the request: changed as `deposit` and `claim_rewards`
/// change it where they accept, unchanged where they reject.
pub open spec fn pool_after(pool: RewardPool, request: PoolRequest) -> RewardPool {
    match request {
        PoolRequest::Deposit { amount } => if pool.total_rewards + amount <= u64::MAX {
            pool.spec_after_deposit(amount)
        } else {
            pool
        },
        PoolRequest::Claim { user_xnos, total_xnos } => if claim_rejection(
            pool,
            user_xnos,
            total_xnos,
        ) is None {
            pool_after_claim(
                pool,
                claimable_amount(pool.total_rewards, user_xnos, total_xnos) as u64,
            )
        } else {
            pool
        },
    }
}

impl RewardPool {
    /// The pool that `initialize_pool` creates.
    pub open spec fn spec_initial(authority: Pubkey, reward_rate_bps: u16, bump: u8) -> RewardPool {
        RewardPool {
            authority,
            total_rewards: 0,
            total_claimed: 0,
            reward_rate_bps,
            enabled: true,
            total_distributions: 0,
            total_stakers_rewarded: 0,
            bump,
        }
    }

    /// The pool after `amount` was added to it.
    pub open spec fn spec_after_deposit(self, amount: u64) -> RewardPool {
        RewardPool {
            total_rewards: (self.total_rewards + amount) as u64,
            total_distributions: if self.total_distributions == u64::MAX {
                u64::MAX
            } else {
                (self.total_distributions + 1) as u64
            },
            ..self
        }
    }

    /// The share of the pool that falls to `user_xnos` out of `total_xnos`.
    /// It reads two totals and nothing else.
    ///
    /// Returns zero when `total_xnos` is zero. Fails with
    /// `CalculationOverflow` exactly when the share does not fit in 64 bits.
    pub fn calculate_claimable(&self, user_xnos: u64, total_xnos: u64) -> (result: Result<
        u64,
        RewardError,
    >)
        ensures
            match result {
                Ok(claimable) => claimable == claimable_amount(
                    self.total_rewards,
                    user_xnos,
                    total_xnos,
                ),
                Err(e) => {
                    &&& e == RewardError::CalculationOverflow
                    &&& claimable_amount(self.total_rewards, user_xnos, total_xnos) > u64::MAX
                },
            },
            total_xnos == 0 ==> result == Ok::<u64, RewardError>(0),
    {
        if total_xnos == 0 {
            return Ok(0);
        }
        match checked_proportion(user_xnos, self.total_rewards, total_xnos) {
            Some(claimable) => Ok(claimable),
            None => Err(RewardError::CalculationOverflow),
        }
    }

    /// Adds `amount` to the undistributed rewards and counts the deposit.
    ///
    /// Fails with `CalculationOverflow`, changing nothing, exactly when the
    /// new total does not fit in 64 bits.
    pub fn deposit(&mut self, amount: u64) -> (result: Result<(), RewardError>)
        ensures
            *final(self) == pool_after(*old(self), PoolRequest::Deposit { amount }),
            match result {
                Ok(()) => {
                    &&& old(self).total_rewards + amount <= u64::MAX
                    &&& *final(self) == old(self).spec_after_deposit(amount)
                },
                Err(e) => {
                    &&& e == RewardError::CalculationOverflow
                    &&& old(self).total_rewards + amount > u64::MAX
                    &&& *final(self) == *old(self)
                },
            },
    {
        match self.total_rewards.checked_add(amount) {
            Some(total) => {
                self.total_rewards = total;
                self.total_distributions = self.total_distributions.saturating_add(1);
                Ok(())
            },
            None => Err(RewardError::CalculationOverflow),
        }
    }
}

/// Creates the reward pool: enabled, with all totals and counters at zero.
///
/// Fails with `InvalidRate` exactly when `reward_rate_bps` is above 10,000.
pub fn initialize_pool(authority: Pubkey, reward_rate_bps: u16, bump: u8) -> (result: Result<
    RewardPool,
    RewardError,
>)
    ensures
        match result {
            Ok(pool) => {
                &&& reward_rate_bps <= MAX_REWARD_RATE_BPS
                &&& pool == RewardPool::spec_initial(authority, reward_rate_bps, bump)
            },
            Err(e) => {
                &&& e == RewardError::InvalidRate
                &&& reward_rate_bps > MAX_REWARD_RATE_BPS
            },
        },
{
    if reward_rate_bps > MAX_REWARD_RATE_BPS {
        return Err(RewardError::InvalidRate);
    }
    Ok(
        RewardPool {
            authority,
            total_rewards: 0,
            total_claimed: 0,
            reward_rate_bps,
            enabled: true,
            total_distributions: 0,
            total_stakers_rewarded: 0,
            bump,
        },
    )
}

} // verus!
