//! What holds of a pool over any sequence of deposits and claims.

use crate::rewards::reward_pool::{
    deposited_by,
    lemma_claimable_within_pool,
    paid_by,
    pool_after,
    weight_within_total,
    PoolRequest,
    RewardPool,
};
use vstd::prelude::*;

verus! {

/// The pool after all the requests, in order.
pub open spec fn pool_after_all(pool: RewardPool, requests: Seq<PoolRequest>) -> RewardPool
    decreases requests.len(),
{
    if requests.len() == 0 {
        pool
    } else {
        pool_after(pool_after_all(pool, requests.drop_last()), requests.last())
    }
}

/// Sum of what the requests deposited.
pub open spec fn total_deposited(pool: RewardPool, requests: Seq<PoolRequest>) -> nat
    decreases requests.len(),
{
    if requests.len() == 0 {
        0
    } else {
        total_deposited(pool, requests.drop_last()) + deposited_by(
            pool_after_all(pool, requests.drop_last()),
            requests.last(),
        )
    }
}

/// Sum of what the requests paid out.
pub open spec fn total_paid(pool: RewardPool, requests: Seq<PoolRequest>) -> nat
    decreases requests.len(),
{
    if requests.len() == 0 {
        0
    } else {
        total_paid(pool, requests.drop_last()) + paid_by(
            pool_after_all(pool, requests.drop_last()),
            requests.last(),
        )
    }
}

/// One request keeps the balance: what the pool holds afterwards is what it
/// held before, plus what was deposited, minus what was paid; and no more is
/// paid than the pool held.
pub proof fn lemma_request_keeps_balance(pool: RewardPool, request: PoolRequest)
    requires
        weight_within_total(request),
    ensures
        paid_by(pool, request) <= pool.total_rewards,
        pool_after(pool, request).total_rewards + paid_by(pool, request) == pool.total_rewards
            + deposited_by(pool, request),
{
    match request {
        PoolRequest::Deposit { amount } => {},
        PoolRequest::Claim { user_xnos, total_xnos } => {
            lemma_claimable_within_pool(pool.total_rewards, user_xnos, total_xnos);
        },
    }
}

/// Over any sequence of deposits and claims, in which each claimant's weight
/// is part of the total weight, the pool never goes below zero and the claims
/// paid never exceed what was there to pay: what the pool holds at the end,
/// plus all that was paid, is what it held at the start plus all that was
/// deposited.
pub proof fn lemma_claims_never_exceed_deposits(pool: RewardPool, requests: Seq<PoolRequest>)
    requires
        forall|i: int| 0 <= i < requests.len() ==> weight_within_total(#[trigger] requests[i]),
    ensures
        pool_after_all(pool, requests).total_rewards + total_paid(pool, requests)
            == pool.total_rewards + total_deposited(pool, requests),
        total_paid(pool, requests) <= pool.total_rewards + total_deposited(pool, requests),
    decreases requests.len(),
{
    if requests.len() > 0 {
        let earlier = requests.drop_last();
        assert forall|i: int| 0 <= i < earlier.len() implies weight_within_total(
            #[trigger] earlier[i],
        ) by {
            assert(earlier[i] == requests[i]);
        }
        lemma_claims_never_exceed_deposits(pool, earlier);
        lemma_request_keeps_balance(pool_after_all(pool, earlier), requests.last());
    }
}

} // verus!
