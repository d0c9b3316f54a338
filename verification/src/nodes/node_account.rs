//! The record of one node, and its reputation.

use crate::identity::Pubkey;
use vstd::arithmetic::div_mod::lemma_div_is_ordered;
use vstd::prelude::*;

verus! {

/// Highest reputation.
pub const MAX_REPUTATION: u16 = 1000;

/// Reputation of a node that has not finished any job.
pub const NEUTRAL_REPUTATION: u16 = 500;

/// Smallest units in one token.
pub const UNITS_PER_TOKEN: u64 = 1_000_000_000;

/// Stake above which the bonus for stake grows no more: 100 tokens.
pub const BONUS_STAKE_CAP: u64 = 100_000_000_000;

/// Whether a node takes work.
#[derive(Clone, Copy, Debug, PartialEq, Eq, Hash, Structural)]
pub enum NodeStatus {
    /// Not heard of lately.
    Offline,
    /// Ready for work.
    Online,
    /// Barred from work.
    Suspended,
}

impl Default for NodeStatus {
    fn default() -> (status: NodeStatus)
        ensures
            status == NodeStatus::Offline,
    {
        NodeStatus::Offline
    }
}

/// The record of one node.
#[derive(Clone, Debug, PartialEq, Eq)]
pub struct NodeAccount {
    /// Who operates the node.
    pub owner: Pubkey,
    /// Identifier of the node, of at most 64 characters.
    pub node_id: String,
    /// Hash of the hardware description, of at most 64 characters.
    pub gpu_specs_hash: String,
    /// Rough location, of at most 64 characters.
    pub location: String,
    /// Time of registration.
    pub registered_at: i64,
    /// Time of the last sign of life.
    pub last_heartbeat: i64,
    /// Whether the node takes work.
    pub status: NodeStatus,
    /// Amount staked for the node, in smallest units.
    pub stake_amount: u64,
    /// Reputation, from 0 to 1000.
    pub reputation_score: u16,
    /// Number of jobs finished with a result.
    pub jobs_completed: u64,
    /// Number of jobs given up.
    pub jobs_failed: u64,
    /// Sum of all earnings, in smallest units.
    pub total_earned: u64,
    /// Address-derivation seed of the record that stores this value.
    pub bump: u8,
}

/// A node record as a mathematical value, its texts as sequences of
/// characters.
pub struct NodeAccountView {
    pub owner: Pubkey,
    pub node_id: Seq<char>,
    pub gpu_specs_hash: Seq<char>,
    pub location: Seq<char>,
    pub registered_at: i64,
    pub last_heartbeat: i64,
    pub status: NodeStatus,
    pub stake_amount: u64,
    pub reputation_score: u16,
    pub jobs_completed: u64,
    pub jobs_failed: u64,
    pub total_earned: u64,
    pub bump: u8,
}

impl View for NodeAccount {
    type V = NodeAccountView;

    open spec fn view(&self) -> NodeAccountView {
        NodeAccountView {
            owner: self.owner,
            node_id: self.node_id@,
            gpu_specs_hash: self.gpu_specs_hash@,
            location: self.location@,
            registered_at: self.registered_at,
            last_heartbeat: self.last_heartbeat,
            status: self.status,
            stake_amount: self.stake_amount,
            reputation_score: self.reputation_score,
            jobs_completed: self.jobs_completed,
            jobs_failed: self.jobs_failed,
            total_earned: self.total_earned,
            bump: self.bump,
        }
    }
}

/// `a + b`, stopping at the largest 64-bit value.
pub open spec fn saturating_sum(a: u64, b: u64) -> u64 {
    if a + b > u64::MAX {
        u64::MAX
    } else {
        (a + b) as u64
    }
}

/// The reputation of a node with the given record of jobs and stake.
///
/// A node without any job has the neutral reputation of 500. Otherwise the
/// reputation is the success rate in thousandths, plus one point for each
/// token staked up to 100 points, rounded down after both are added, and at
/// most 1000:
/// `min(1000, floor(1000 * completed / total + min(stake, 100 tokens) / 1 token))`,
/// computed exactly.
pub open spec fn reputation_for(jobs_completed: u64, jobs_failed: u64, stake_amount: u64) -> int {
    let total_jobs = saturating_sum(jobs_completed, jobs_failed) as int;
    let counted_stake = if stake_amount > BONUS_STAKE_CAP {
        BONUS_STAKE_CAP as int
    } else {
        stake_amount as int
    };
    if total_jobs == 0 {
        NEUTRAL_REPUTATION as int
    } else {
        let scaled_score = jobs_completed * 1000 * UNITS_PER_TOKEN + counted_stake * total_jobs;
        let score = scaled_score / (total_jobs * UNITS_PER_TOKEN);
        if score > MAX_REPUTATION {
            MAX_REPUTATION as int
        } else {
            score
        }
    }
}

impl NodeAccount {
    /// Whether the node is ready for work.
    pub fn is_online(&self) -> (b: bool)
        ensures
            b == (self.status == NodeStatus::Online),
    {
        matches!(self.status, NodeStatus::Online)
    }

    /// Whether the node is barred from work.
    pub fn is_suspended(&self) -> (b: bool)
        ensures
            b == (self.status == NodeStatus::Suspended),
    {
        matches!(self.status, NodeStatus::Suspended)
    }

    /// Counts one more job finished with a result and brings the reputation
    /// up to date. The counter stops at the largest 64-bit value.
    pub fn increment_completed_jobs(&mut self)
        ensures
            final(self)@ == (NodeAccountView {
                jobs_completed: saturating_sum(old(self).jobs_completed, 1),
                reputation_score: reputation_for(
                    saturating_sum(old(self).jobs_completed, 1),
                    old(self).jobs_failed,
                    old(self).stake_amount,
                ) as u16,
                ..old(self)@
            }),
    {
        self.jobs_completed = self.jobs_completed.saturating_add(1);
        self.update_reputation();
    }

    /// Counts one more job given up and brings the reputation up to date.
    /// The counter stops at the largest 64-bit value.
    pub fn increment_failed_jobs(&mut self)
        ensures
            final(self)@ == (NodeAccountView {
                jobs_failed: saturating_sum(old(self).jobs_failed, 1),
                reputation_score: reputation_for(
                    old(self).jobs_completed,
                    saturating_sum(old(self).jobs_failed, 1),
                    old(self).stake_amount,
                ) as u16,
                ..old(self)@
            }),
    {
        self.jobs_failed = self.jobs_failed.saturating_add(1);
        self.update_reputation();
    }

    /// Adds `amount` to the node's earnings, stopping at the largest 64-bit
    /// value.
    pub fn add_earnings(&mut self, amount: u64)
        ensures
            final(self)@ == (NodeAccountView {
                total_earned: saturating_sum(old(self).total_earned, amount),
                ..old(self)@
            }),
    {
        self.total_earned = self.total_earned.saturating_add(amount);
    }

    /// Sets the reputation to what the node's jobs and stake give by
    /// `reputation_for`: always between 0 and 1000.
    pub fn update_reputation(&mut self)
        ensures
            final(self)@ == (NodeAccountView {
                reputation_score: reputation_for(
                    old(self).jobs_completed,
                    old(self).jobs_failed,
                    old(self).stake_amount,
                ) as u16,
                ..old(self)@
            }),
            0 <= reputation_for(
                old(self).jobs_completed,
                old(self).jobs_failed,
                old(self).stake_amount,
            ) <= MAX_REPUTATION,
            final(self).reputation_score <= MAX_REPUTATION,
    {
        let total_jobs = self.jobs_completed.saturating_add(self.jobs_failed);
        if total_jobs == 0 {
            self.reputation_score = NEUTRAL_REPUTATION;
            return ;
        }
        let counted_stake = if self.stake_amount > BONUS_STAKE_CAP {
            BONUS_STAKE_CAP
        } else {
            self.stake_amount
        };
        proof {
            assert(0 <= counted_stake * total_jobs <= 100_000_000_000 * 0xffff_ffff_ffff_ffff)
                by (nonlinear_arith)
                requires
                    0 <= counted_stake <= 100_000_000_000,
                    0 <= total_jobs <= 0xffff_ffff_ffff_ffff,
            ;
        }
        let success: u128 = (self.jobs_completed as u128) * 1_000_000_000_000;
        let bonus: u128 = (counted_stake as u128) * (total_jobs as u128);
        let scale: u128 = (total_jobs as u128) * (UNITS_PER_TOKEN as u128);
        let score: u128 = (success + bonus) / scale;
        proof {
            lemma_div_is_ordered(0, (success + bonus) as int, scale as int);
        }
        self.reputation_score = if score > MAX_REPUTATION as u128 {
            MAX_REPUTATION
        } else {
            score as u16
        };
    }
}

} // verus!
