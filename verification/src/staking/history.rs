//! What holds of the stake ledger over any sequence of stakes and
//! withdrawals.

use crate::identity::Pubkey;
use crate::staking::config::StakingConfig;
use crate::staking::instructions::{stake_rejection, unstake_rejection};
use crate::staking::ledger::{
    ledger_after,
    lemma_stake_keeps_totals,
    lemma_unstake_keeps_totals,
    totals_match,
    LedgerRequest,
    LedgerState,
};
use crate::staking::stake_account::StakeAccount;
use vstd::prelude::*;

verus! {

/// The ledger after all the requests, in order.
pub open spec fn ledger_after_all(state: LedgerState, requests: Seq<LedgerRequest>) -> LedgerState
    decreases requests.len(),
{
    if requests.len() == 0 {
        state
    } else {
        ledger_after(ledger_after_all(state, requests.drop_last()), requests.last())
    }
}

/// One request, accepted or rejected, keeps the totals equal to the sums
/// over the records not withdrawn.
pub proof fn lemma_request_keeps_totals(state: LedgerState, request: LedgerRequest)
    requires
        totals_match(state.config, state.records),
    ensures
        totals_match(ledger_after(state, request).config, ledger_after(state, request).records),
{
    match request {
        LedgerRequest::Stake { authority, amount, duration_seconds, now, bump } => {
            if stake_rejection(state.config, amount, duration_seconds, now) is None {
                lemma_stake_keeps_totals(
                    state.config,
                    state.records,
                    authority,
                    amount,
                    duration_seconds,
                    now,
                    bump,
                );
            }
        },
        LedgerRequest::Unstake { index, caller, now } => {
            if 0 <= index < state.records.len() && unstake_rejection(
                state.config,
                state.records[index],
                caller,
                now,
            ) is None {
                lemma_unstake_keeps_totals(state.config, state.records, index, caller, now);
            }
        },
    }
}

/// After any sequence of stakes and withdrawals, the total voting weight is
/// the sum of the weights of the records not withdrawn, and so are the total
/// staked and the number of stakers.
pub proof fn lemma_totals_match_after_all(state: LedgerState, requests: Seq<LedgerRequest>)
    requires
        totals_match(state.config, state.records),
    ensures
        totals_match(
            ledger_after_all(state, requests).config,
            ledger_after_all(state, requests).records,
        ),
    decreases requests.len(),
{
    if requests.len() > 0 {
        lemma_totals_match_after_all(state, requests.drop_last());
        lemma_request_keeps_totals(
            ledger_after_all(state, requests.drop_last()),
            requests.last(),
        );
    }
}

/// A new ledger has totals that match its records: there are none, and all
/// totals are zero.
pub proof fn lemma_new_ledger_totals_match(authority: Pubkey, bump: u8)
    ensures
        totals_match(StakingConfig::spec_initial(authority, bump), Seq::<StakeAccount>::empty()),
{
}

} // verus!
