//! The stake ledger as one aggregate: the configuration together with every
//! stake record ever created, and the invariant that ties the two.

use crate::identity::Pubkey;
use crate::staking::config::StakingConfig;
use crate::staking::error::StakingError;
use crate::staking::instructions::{
    config_after_stake,
    config_after_unstake,
    new_stake,
    stake,
    stake_rejection,
    unstake,
    unstake_rejection,
};
use crate::staking::stake_account::StakeAccount;
use vstd::prelude::*;

verus! {

/// Sum of the voting weights of the records that are not withdrawn.
pub open spec fn active_weight(records: Seq<StakeAccount>) -> nat
    decreases records.len(),
{
    if records.len() == 0 {
        0
    } else {
        active_weight(records.drop_last()) + records.last().spec_voting_weight() as nat
    }
}

/// Sum of the staked amounts of the records that are not withdrawn.
pub open spec fn active_amount(records: Seq<StakeAccount>) -> nat
    decreases records.len(),
{
    if records.len() == 0 {
        0
    } else {
        active_amount(records.drop_last()) + records.last().spec_active_amount() as nat
    }
}

/// Number of the records that are not withdrawn.
pub open spec fn active_count(records: Seq<StakeAccount>) -> nat
    decreases records.len(),
{
    if records.len() == 0 {
        0
    } else {
        active_count(records.drop_last()) + if records.last().withdrawn {
            0nat
        } else {
            1nat
        }
    }
}

/// The totals of `config` are exactly the sums over `records`.
pub open spec fn totals_match(config: StakingConfig, records: Seq<StakeAccount>) -> bool {
    &&& config.total_xnos == active_weight(records)
    &&& config.total_staked == active_amount(records)
    &&& config.total_stakers == active_count(records)
}

/// Appending a record adds its contribution to each sum.
pub proof fn lemma_sums_push(records: Seq<StakeAccount>, record: StakeAccount)
    ensures
        active_weight(records.push(record)) == active_weight(records)
            + record.spec_voting_weight(),
        active_amount(records.push(record)) == active_amount(records)
            + record.spec_active_amount(),
        active_count(records.push(record)) == active_count(records) + if record.withdrawn {
            0nat
        } else {
            1nat
        },
{
    assert(records.push(record).drop_last() =~= records);
}

/// Replacing the record at `index` changes each sum by the difference of the
/// two contributions.
pub proof fn lemma_sums_update(records: Seq<StakeAccount>, index: int, record: StakeAccount)
    requires
        0 <= index < records.len(),
    ensures
        active_weight(records.update(index, record)) + records[index].spec_voting_weight()
            == active_weight(records) + record.spec_voting_weight(),
        active_amount(records.update(index, record)) + records[index].spec_active_amount()
            == active_amount(records) + record.spec_active_amount(),
        active_count(records.update(index, record)) + (if records[index].withdrawn {
            0nat
        } else {
            1nat
        }) == active_count(records) + (if record.withdrawn {
            0nat
        } else {
            1nat
        }),
    decreases records.len(),
{
    let updated = records.update(index, record);
    if index == records.len() - 1 {
        assert(updated.drop_last() =~= records.drop_last());
    } else {
        assert(updated.drop_last() =~= records.drop_last().update(index, record));
        lemma_sums_update(records.drop_last(), index, record);
    }
}

/// No single record contributes more than the sums hold.
pub proof fn lemma_record_within_sums(records: Seq<StakeAccount>, index: int)
    requires
        0 <= index < records.len(),
    ensures
        records[index].spec_voting_weight() <= active_weight(records),
        records[index].spec_active_amount() <= active_amount(records),
        !records[index].withdrawn ==> active_count(records) >= 1,
    decreases records.len(),
{
    if index < records.len() - 1 {
        lemma_record_within_sums(records.drop_last(), index);
    }
}

/// An accepted stake keeps the totals equal to the sums: after it, the
/// configuration's totals are the sums over the records with the new record
/// appended.
pub proof fn lemma_stake_keeps_totals(
    config: StakingConfig,
    records: Seq<StakeAccount>,
    authority: Pubkey,
    amount: u64,
    duration_seconds: i64,
    now: i64,
    bump: u8,
)
    requires
        totals_match(config, records),
        stake_rejection(config, amount, duration_seconds, now) is None,
    ensures
        totals_match(
            config_after_stake(
                config,
                amount,
                new_stake(authority, amount, duration_seconds, now, bump).xnos,
            ),
            records.push(new_stake(authority, amount, duration_seconds, now, bump)),
        ),
{
    lemma_sums_push(records, new_stake(authority, amount, duration_seconds, now, bump));
}

/// An accepted withdrawal keeps the totals equal to the sums: after it, the
/// configuration's totals are the sums over the records with the withdrawn
/// record marked so.
pub proof fn lemma_unstake_keeps_totals(
    config: StakingConfig,
    records: Seq<StakeAccount>,
    index: int,
    caller: Pubkey,
    now: i64,
)
    requires
        totals_match(config, records),
        0 <= index < records.len(),
        unstake_rejection(config, records[index], caller, now) is None,
    ensures
        totals_match(
            config_after_unstake(config, records[index]),
            records.update(index, StakeAccount { withdrawn: true, ..records[index] }),
        ),
{
    lemma_record_within_sums(records, index);
    lemma_sums_update(records, index, StakeAccount { withdrawn: true, ..records[index] });
}

/// While the totals equal the sums, no withdrawal of a recorded stake fails
/// for want of balance in the totals.
pub proof fn lemma_unstake_never_underflows(
    config: StakingConfig,
    records: Seq<StakeAccount>,
    index: int,
    caller: Pubkey,
    now: i64,
)
    requires
        totals_match(config, records),
        0 <= index < records.len(),
    ensures
        unstake_rejection(config, records[index], caller, now) != Some(
            StakingError::CalculationOverflow,
        ),
{
    lemma_record_within_sums(records, index);
}

/// The configuration together with every record, as a mathematical value.
pub struct LedgerState {
    pub config: StakingConfig,
    pub records: Seq<StakeAccount>,
}

/// One request made to the stake ledger.
pub enum LedgerRequest {
    /// Lock `amount` for `duration_seconds` at time `now`.
    Stake { authority: Pubkey, amount: u64, duration_seconds: i64, now: i64, bump: u8 },
    /// Withdraw the stake at position `index` at time `now`.
    Unstake { index: int, caller: Pubkey, now: i64 },
}

/// The ledger after the request: changed as `stake` and `unstake` change it
/// where they accept, unchanged where they reject or where there is no
/// record at the position named.
pub open spec fn ledger_after(state: LedgerState, request: LedgerRequest) -> LedgerState {
    match request {
        LedgerRequest::Stake { authority, amount, duration_seconds, now, bump } => {
            if stake_rejection(state.config, amount, duration_seconds, now) is None {
                let record = new_stake(authority, amount, duration_seconds, now, bump);
                LedgerState {
                    config: config_after_stake(state.config, amount, record.xnos),
                    records: state.records.push(record),
                }
            } else {
                state
            }
        },
        LedgerRequest::Unstake { index, caller, now } => {
            if 0 <= index < state.records.len() && unstake_rejection(
                state.config,
                state.records[index],
                caller,
                now,
            ) is None {
                LedgerState {
                    config: config_after_unstake(state.config, state.records[index]),
                    records: state.records.update(
                        index,
                        StakeAccount { withdrawn: true, ..state.records[index] },
                    ),
                }
            } else {
                state
            }
        },
    }
}

/// The configuration of the stake ledger with all its records. The totals in
/// the configuration change only through `stake` and `unstake`.
pub struct StakeLedger {
    /// Bounds and running totals.
    pub config: StakingConfig,
    /// Every stake ever made, in the order of creation.
    pub records: Vec<StakeAccount>,
}

impl View for StakeLedger {
    type V = LedgerState;

    open spec fn view(&self) -> LedgerState {
        LedgerState { config: self.config, records: self.records@ }
    }
}

impl StakeLedger {
    /// The ledger's invariant: total voting weight, total staked amount and
    /// number of stakers equal the sums over the records not withdrawn.
    pub open spec fn wf(&self) -> bool {
        totals_match(self.config, self.records@)
    }

    /// A ledger with the default configuration and no stake.
    pub fn new(authority: Pubkey, bump: u8) -> (ledger: StakeLedger)
        ensures
            ledger.wf(),
            ledger.config == StakingConfig::spec_initial(authority, bump),
            ledger.records@ == Seq::<StakeAccount>::empty(),
    {
        StakeLedger { config: StakingConfig::new(authority, bump), records: Vec::new() }
    }

    /// Locks `amount` for `duration_seconds` on behalf of `authority` and
    /// appends the record; returns the position of the new record.
    ///
    /// Accepts and rejects exactly as the free function `stake` does on the
    /// ledger's configuration. A rejected request leaves the ledger as it
    /// was.
    pub fn stake(
        &mut self,
        authority: Pubkey,
        amount: u64,
        duration_seconds: i64,
        now: i64,
        bump: u8,
    ) -> (result: Result<usize, StakingError>)
        requires
            old(self).wf(),
        ensures
            final(self).wf(),
            final(self)@ == ledger_after(
                old(self)@,
                LedgerRequest::Stake { authority, amount, duration_seconds, now, bump },
            ),
            match result {
                Ok(index) => {
                    &&& stake_rejection(old(self).config, amount, duration_seconds, now) is None
                    &&& index == old(self).records@.len()
                    &&& final(self).records@ == old(self).records@.push(
                        new_stake(authority, amount, duration_seconds, now, bump),
                    )
                    &&& final(self).config == config_after_stake(
                        old(self).config,
                        amount,
                        final(self).records@[index as int].xnos,
                    )
                },
                Err(e) => {
                    &&& stake_rejection(old(self).config, amount, duration_seconds, now) == Some(e)
                    &&& *final(self) == *old(self)
                },
            },
    {
        let index = self.records.len();
        match stake(&mut self.config, authority, amount, duration_seconds, now, bump) {
            Ok(record) => {
                proof {
                    lemma_sums_push(self.records@, record);
                }
                self.records.push(record);
                Ok(index)
            },
            Err(e) => Err(e),
        }
    }

    /// Withdraws the stake at position `index` at time `now` on behalf of
    /// `caller`; returns the amount to hand back.
    ///
    /// Because the totals equal the sums over the records, a stake that is
    /// not withdrawn can always be subtracted from them: the only failures
    /// are `Unauthorized`, `StakeLocked` and `AlreadyWithdrawn`.
    pub fn unstake(&mut self, index: usize, caller: Pubkey, now: i64) -> (result: Result<
        u64,
        StakingError,
    >)
        requires
            old(self).wf(),
            index < old(self).records@.len(),
        ensures
            final(self).wf(),
            final(self)@ == ledger_after(
                old(self)@,
                LedgerRequest::Unstake { index: index as int, caller, now },
            ),
            match result {
                Ok(amount) => {
                    &&& unstake_rejection(
                        old(self).config,
                        old(self).records@[index as int],
                        caller,
                        now,
                    ) is None
                    &&& amount == old(self).records@[index as int].staked_amount
                    &&& final(self).records@ == old(self).records@.update(
                        index as int,
                        StakeAccount { withdrawn: true, ..old(self).records@[index as int] },
                    )
                    &&& final(self).config == config_after_unstake(
                        old(self).config,
                        old(self).records@[index as int],
                    )
                },
                Err(e) => {
                    &&& unstake_rejection(
                        old(self).config,
                        old(self).records@[index as int],
                        caller,
                        now,
                    ) == Some(e)
                    &&& e != StakingError::CalculationOverflow
                    &&& *final(self) == *old(self)
                },
            },
    {
        let mut record = self.records[index];
        proof {
            lemma_record_within_sums(self.records@, index as int);
        }
        match unstake(&mut self.config, &mut record, caller, now) {
            Ok(amount) => {
                proof {
                    lemma_sums_update(self.records@, index as int, record);
                }
                self.records.set(index, record);
                Ok(amount)
            },
            Err(e) => Err(e),
        }
    }
}

} // verus!
