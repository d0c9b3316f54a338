//! The record of one job.

use crate::identity::Pubkey;
use crate::jobs::status::{JobStatus, JobType};
use vstd::prelude::*;

verus! {

/// The record of one job. It is created by the client, changed by
/// assignment, completion, settlement and cancellation, and never deleted.
#[derive(Clone, Debug, PartialEq, Eq)]
pub struct JobAccount {
    /// Identifier chosen by the client, of at most 32 characters.
    pub job_id: String,
    /// Who asked for the job and pays for it.
    pub client: Pubkey,
    /// The worker the job was handed to; none until it is assigned.
    pub assigned_node: Option<Pubkey>,
    /// Kind of work.
    pub job_type: JobType,
    /// Price of the job in smallest units, above zero.
    pub price: u64,
    /// Hash of what the job requires, of at most 64 characters.
    pub requirements_hash: String,
    /// Time of creation.
    pub created_at: i64,
    /// Time of completion; zero until the job is completed.
    pub completed_at: i64,
    /// State of the job.
    pub status: JobStatus,
    /// Hash of the result; empty until the job is completed.
    pub result_hash: String,
    /// Where the logs are kept; empty until the job is completed.
    pub logs_url: String,
    /// Whether the price has been paid out. Goes from `false` to `true` once.
    pub payment_settled: bool,
    /// Address-derivation seed of the record that stores this value.
    pub bump: u8,
}

/// A job record as a mathematical value, its texts as sequences of
/// characters.
pub struct JobAccountView {
    pub job_id: Seq<char>,
    pub client: Pubkey,
    pub assigned_node: Option<Pubkey>,
    pub job_type: JobType,
    pub price: u64,
    pub requirements_hash: Seq<char>,
    pub created_at: i64,
    pub completed_at: i64,
    pub status: JobStatus,
    pub result_hash: Seq<char>,
    pub logs_url: Seq<char>,
    pub payment_settled: bool,
    pub bump: u8,
}

impl View for JobAccount {
    type V = JobAccountView;

    open spec fn view(&self) -> JobAccountView {
        JobAccountView {
            job_id: self.job_id@,
            client: self.client,
            assigned_node: self.assigned_node,
            job_type: self.job_type,
            price: self.price,
            requirements_hash: self.requirements_hash@,
            created_at: self.created_at,
            completed_at: self.completed_at,
            status: self.status,
            result_hash: self.result_hash@,
            logs_url: self.logs_url@,
            payment_settled: self.payment_settled,
            bump: self.bump,
        }
    }
}

impl JobAccount {
    /// Whether the job waits for a worker.
    pub fn is_pending(&self) -> (b: bool)
        ensures
            b == (self.status == JobStatus::Pending),
    {
        matches!(self.status, JobStatus::Pending)
    }

    /// Whether the job was handed to a worker.
    pub fn is_assigned(&self) -> (b: bool)
        ensures
            b == (self.status == JobStatus::Assigned),
    {
        matches!(self.status, JobStatus::Assigned)
    }

    /// Whether the job is being worked on.
    pub fn is_running(&self) -> (b: bool)
        ensures
            b == (self.status == JobStatus::Running),
    {
        matches!(self.status, JobStatus::Running)
    }

    /// Whether the result was delivered.
    pub fn is_completed(&self) -> (b: bool)
        ensures
            b == (self.status == JobStatus::Completed),
    {
        matches!(self.status, JobStatus::Completed)
    }

    /// Whether the worker gave the job up.
    pub fn is_failed(&self) -> (b: bool)
        ensures
            b == (self.status == JobStatus::Failed),
    {
        matches!(self.status, JobStatus::Failed)
    }

    /// Whether the client withdrew the job.
    pub fn is_cancelled(&self) -> (b: bool)
        ensures
            b == (self.status == JobStatus::Cancelled),
    {
        matches!(self.status, JobStatus::Cancelled)
    }

    /// Whether the job can be handed to a worker: only a pending job can.
    pub fn can_be_assigned(&self) -> (b: bool)
        ensures
            b == (self.status == JobStatus::Pending),
    {
        matches!(self.status, JobStatus::Pending)
    }

    /// Whether a result can be delivered: for an assigned or a running job.
    pub fn can_submit_result(&self) -> (b: bool)
        ensures
            b == (self.status == JobStatus::Assigned || self.status == JobStatus::Running),
    {
        matches!(self.status, JobStatus::Assigned | JobStatus::Running)
    }

    /// Whether the price can be paid out: for a completed job whose payment
    /// was not settled before.
    pub fn can_be_settled(&self) -> (b: bool)
        ensures
            b == (self.status == JobStatus::Completed && !self.payment_settled),
    {
        matches!(self.status, JobStatus::Completed) && !self.payment_settled
    }
}

} // verus!
