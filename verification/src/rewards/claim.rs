//! Claiming a share of the pool.

use crate::rewards::error::RewardError;
use crate::rewards::reward_pool::{
    claim_rejection,
    claimable_amount,
    lemma_claimable_within_pool,
    pool_after,
    pool_after_claim,
    PoolRequest,
    RewardPool,
};
use crate::staking::config::StakingConfig;
use crate::staking::ledger::{lemma_record_within_sums, StakeLedger};
use crate::staking::stake_account::StakeAccount;
use vstd::prelude::*;

verus! {

/// Pays the owner of `stake_account` their share of the pool.
///
/// The share is computed from the weight the stake carries now (nothing once
/// it is withdrawn) and from the total weight that `staking_config` holds
/// now. On success the amount to pay is returned and the pool is debited by
/// it; the caller moves that amount from the pool's custody to the claimant.
/// On failure the pool is unchanged and the error is the first of
/// `claim_rejection` that applies.
///
/// Where the weight of the stake is part of the total weight, the amount
/// paid is no more than the pool held, and the pool is debited by exactly
/// that amount.
pub fn claim_rewards(
    pool: &mut RewardPool,
    stake_account: &StakeAccount,
    staking_config: &StakingConfig,
) -> (result: Result<u64, RewardError>)
    ensures
        *final(pool) == pool_after(
            *old(pool),
            PoolRequest::Claim {
                user_xnos: stake_account.spec_voting_weight(),
                total_xnos: staking_config.total_xnos,
            },
        ),
        match result {
            Ok(paid) => {
                &&& claim_rejection(
                    *old(pool),
                    stake_account.spec_voting_weight(),
                    staking_config.total_xnos,
                ) is None
                &&& paid == claimable_amount(
                    old(pool).total_rewards,
                    stake_account.spec_voting_weight(),
                    staking_config.total_xnos,
                )
                &&& paid > 0
                &&& *final(pool) == pool_after_claim(*old(pool), paid)
                &&& stake_account.spec_voting_weight() <= staking_config.total_xnos ==> {
                    &&& paid <= old(pool).total_rewards
                    &&& final(pool).total_rewards == old(pool).total_rewards - paid
                }
            },
            Err(e) => {
                &&& claim_rejection(
                    *old(pool),
                    stake_account.spec_voting_weight(),
                    staking_config.total_xnos,
                ) == Some(e)
                &&& *final(pool) == *old(pool)
            },
        },
{
    let user_xnos = stake_account.voting_weight();
    if !pool.enabled {
        return Err(RewardError::RewardsDisabled);
    }
    if user_xnos == 0 {
        return Err(RewardError::NoStake);
    }
    if pool.total_rewards == 0 {
        return Err(RewardError::NoRewards);
    }
    let claimable = match pool.calculate_claimable(user_xnos, staking_config.total_xnos) {
        Ok(amount) => amount,
        Err(e) => {
            return Err(e);
        },
    };
    if claimable == 0 {
        return Err(RewardError::NoRewards);
    }
    proof {
        if user_xnos <= staking_config.total_xnos {
            lemma_claimable_within_pool(pool.total_rewards, user_xnos, staking_config.total_xnos);
        }
    }
    pool.total_rewards = pool.total_rewards.saturating_sub(claimable);
    pool.total_claimed = pool.total_claimed.saturating_add(claimable);
    pool.total_stakers_rewarded = pool.total_stakers_rewarded.saturating_add(1);
    Ok(claimable)
}

/// A claim for a stake of a ledger whose totals match its records never pays
/// out more than the pool holds, and leaves in the pool exactly what was not
/// paid.
pub proof fn lemma_claim_from_ledger_within_pool(
    pool: RewardPool,
    ledger: StakeLedger,
    index: int,
)
    requires
        ledger.wf(),
        0 <= index < ledger.records@.len(),
    ensures
        ({
            let weight = ledger.records@[index].spec_voting_weight();
            let total = ledger.config.total_xnos;
            let owed = claimable_amount(pool.total_rewards, weight, total);
            &&& 0 <= owed <= pool.total_rewards
            &&& claim_rejection(pool, weight, total) is None ==> pool_after_claim(
                pool,
                owed as u64,
            ).total_rewards == pool.total_rewards - owed
        }),
{
    lemma_record_within_sums(ledger.records@, index);
    lemma_claimable_within_pool(
        pool.total_rewards,
        ledger.records@[index].spec_voting_weight(),
        ledger.config.total_xnos,
    );
}

} // verus!
