//! The splitter's shares, destinations and running totals.

use crate::identity::Pubkey;
use crate::math::{percentage, proportion};
use vstd::prelude::*;

verus! {

/// Whether four shares, in percent, add up to exactly 100.
pub open spec fn shares_are_valid(
    operator_share: u8,
    treasury_share: u8,
    incentive_share: u8,
    orchestrator_share: u8,
) -> bool {
    operator_share + treasury_share + incentive_share + orchestrator_share == 100
}

/// Destinations, shares and totals of the fee splitter.
#[derive(Clone, Copy, Debug, PartialEq, Eq)]
pub struct SplitterConfig {
    /// Who may change the shares and withdraw from the treasury.
    pub authority: Pubkey,
    /// Where the treasury's share goes.
    pub treasury: Pubkey,
    /// Where the incentive pool's share goes.
    pub incentive_pool: Pubkey,
    /// The worker's share, in percent.
    pub operator_share: u8,
    /// The treasury's share, in percent.
    pub treasury_share: u8,
    /// The incentive pool's share, in percent.
    pub incentive_share: u8,
    /// The orchestrator's share, in percent.
    pub orchestrator_share: u8,
    /// Sum of all the payments processed; stops at the largest 64-bit value.
    pub total_volume: u64,
    /// Number of payments processed; stops at the largest 64-bit value.
    pub total_payments: u64,
    /// Address-derivation seed of the record that stores this value.
    pub bump: u8,
}

impl SplitterConfig {
    /// The invariant of the splitter: its four shares add up to 100.
    pub open spec fn wf(&self) -> bool {
        shares_are_valid(
            self.operator_share,
            self.treasury_share,
            self.incentive_share,
            self.orchestrator_share,
        )
    }

    /// The configuration after a payment of `amount` was recorded.
    pub open spec fn spec_after_payment(self, amount: u64) -> SplitterConfig {
        SplitterConfig {
            total_volume: if self.total_volume + amount > u64::MAX {
                u64::MAX
            } else {
                (self.total_volume + amount) as u64
            },
            total_payments: if self.total_payments == u64::MAX {
                u64::MAX
            } else {
                (self.total_payments + 1) as u64
            },
            ..self
        }
    }

    /// Whether the four shares add up to exactly 100.
    pub fn validate_shares(&self) -> (valid: bool)
        ensures
            valid == self.wf(),
    {
        let total: u16 = self.operator_share as u16 + self.treasury_share as u16
            + self.incentive_share as u16 + self.orchestrator_share as u16;
        total == 100
    }

    /// The worker's part of `total`: `floor(total * operator_share / 100)`.
    pub fn calculate_operator_amount(&self, total: u64) -> (amount: u64)
        requires
            self.operator_share <= 100,
        ensures
            amount == proportion(total as int, self.operator_share as int, 100),
    {
        percentage(total, self.operator_share)
    }

    /// The treasury's part of `total`: `floor(total * treasury_share / 100)`.
    pub fn calculate_treasury_amount(&self, total: u64) -> (amount: u64)
        requires
            self.treasury_share <= 100,
        ensures
            amount == proportion(total as int, self.treasury_share as int, 100),
    {
        percentage(total, self.treasury_share)
    }

    /// The incentive pool's part of `total`:
    /// `floor(total * incentive_share / 100)`.
    pub fn calculate_incentive_amount(&self, total: u64) -> (amount: u64)
        requires
            self.incentive_share <= 100,
        ensures
            amount == proportion(total as int, self.incentive_share as int, 100),
    {
        percentage(total, self.incentive_share)
    }

    /// The orchestrator's part of `total`:
    /// `floor(total * orchestrator_share / 100)`.
    pub fn calculate_orchestrator_amount(&self, total: u64) -> (amount: u64)
        requires
            self.orchestrator_share <= 100,
        ensures
            amount == proportion(total as int, self.orchestrator_share as int, 100),
    {
        percentage(total, self.orchestrator_share)
    }

    /// Adds `amount` to the volume and one to the number of payments. Both
    /// counters stop at the largest 64-bit value.
    pub fn record_payment(&mut self, amount: u64)
        ensures
            *final(self) == old(self).spec_after_payment(amount),
    {
        self.total_volume = self.total_volume.saturating_add(amount);
        self.total_payments = self.total_payments.saturating_add(1);
    }
}

} // verus!
