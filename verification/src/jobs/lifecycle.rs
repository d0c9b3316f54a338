//! The operations that create a job and move it through its states.

use crate::identity::Pubkey;
use crate::jobs::error::JobReceiptError;
use crate::jobs::job_account::{JobAccount, JobAccountView};
use crate::jobs::status::{JobStatus, JobType};
use crate::math::{percentage, proportion};
use vstd::prelude::*;
use vstd::string::StrSliceExecFns;

verus! {

/// Longest job identifier, in characters.
pub const MAX_JOB_ID_LEN: usize = 32;

/// Longest requirements hash, in characters.
pub const MAX_REQUIREMENTS_HASH_LEN: usize = 64;

/// Longest result hash, in characters.
pub const MAX_RESULT_HASH_LEN: usize = 64;

/// Longest reference to the logs, in characters.
pub const MAX_LOGS_URL_LEN: usize = 128;

/// Part of a job's price that goes to the worker, in percent.
pub const OPERATOR_PERCENT: u8 = 80;

/// Part of a job's price that goes to the treasury, in percent.
pub const TREASURY_PERCENT: u8 = 10;

/// Part of a job's price that goes to the incentive pool, in percent.
pub const INCENTIVE_PERCENT: u8 = 5;

/// The three payments that settle a job. What is left of the price after
/// them, the orchestrator's part and the rounding, stays with the client.
#[derive(Clone, Copy, Debug, PartialEq, Eq, Structural)]
pub struct Settlement {
    /// Paid to the worker.
    pub operator_amount: u64,
    /// Paid to the treasury.
    pub treasury_amount: u64,
    /// Paid to the incentive pool.
    pub incentive_amount: u64,
}

/// The payments that settle a job of the given price: 80, 10 and 5 percent
/// of it, each rounded down.
pub open spec fn settlement_for(price: u64) -> Settlement {
    Settlement {
        operator_amount: proportion(price as int, OPERATOR_PERCENT as int, 100) as u64,
        treasury_amount: proportion(price as int, TREASURY_PERCENT as int, 100) as u64,
        incentive_amount: proportion(price as int, INCENTIVE_PERCENT as int, 100) as u64,
    }
}

/// Why `create_job` rejects a request, if it does, in the order of the
/// checks.
pub open spec fn create_rejection(
    job_id: Seq<char>,
    job_type: u8,
    price: u64,
    requirements_hash: Seq<char>,
) -> Option<JobReceiptError> {
    if job_id.len() > MAX_JOB_ID_LEN {
        Some(JobReceiptError::JobIdTooLong)
    } else if job_type > 5 {
        Some(JobReceiptError::InvalidJobType)
    } else if price == 0 {
        Some(JobReceiptError::InvalidPrice)
    } else if requirements_hash.len() > MAX_REQUIREMENTS_HASH_LEN {
        Some(JobReceiptError::RequirementsHashTooLong)
    } else {
        None
    }
}

/// Why `assign_job` rejects a request, if it does.
pub open spec fn assign_rejection(job: JobAccountView) -> Option<JobReceiptError> {
    if job.status != JobStatus::Pending {
        Some(JobReceiptError::JobNotPending)
    } else {
        None
    }
}

/// Why `submit_result` rejects a request, if it does, in the order of the
/// checks.
pub open spec fn submit_rejection(
    job: JobAccountView,
    caller: Pubkey,
    result_hash: Seq<char>,
    logs_url: Seq<char>,
) -> Option<JobReceiptError> {
    if result_hash.len() > MAX_RESULT_HASH_LEN {
        Some(JobReceiptError::ResultHashInvalid)
    } else if logs_url.len() > MAX_LOGS_URL_LEN {
        Some(JobReceiptError::LogsUrlTooLong)
    } else if job.status != JobStatus::Assigned && job.status != JobStatus::Running {
        Some(JobReceiptError::JobNotAssigned)
    } else if job.assigned_node != Some(caller) {
        Some(JobReceiptError::Unauthorized)
    } else {
        None
    }
}

/// Why `settle_job` rejects a request, if it does: a job that is not
/// completed cannot be settled, and a settled job cannot be settled again.
pub open spec fn settle_rejection(job: JobAccountView) -> Option<JobReceiptError> {
    if job.status != JobStatus::Completed {
        Some(JobReceiptError::JobNotCompleted)
    } else if job.payment_settled {
        Some(JobReceiptError::JobAlreadySettled)
    } else {
        None
    }
}

/// Why `cancel_job` rejects a request, if it does, in the order of the
/// checks.
pub open spec fn cancel_rejection(job: JobAccountView, caller: Pubkey) -> Option<JobReceiptError> {
    if job.client != caller {
        Some(JobReceiptError::Unauthorized)
    } else if job.status != JobStatus::Pending && job.status != JobStatus::Assigned {
        Some(JobReceiptError::InvalidJobStatus)
    } else {
        None
    }
}

/// The job after its payment was settled.
pub open spec fn after_settle(job: JobAccountView) -> JobAccountView {
    JobAccountView { payment_settled: true, ..job }
}

/// Creates a job for `client` at time `now`.
///
/// The new job is pending, has no worker, no result and no logs, and its
/// payment is not settled. Fails with the first of `create_rejection` that
/// applies: an identifier of more than 32 characters, a job type above 5, a
/// price of zero, a requirements hash of more than 64 characters.
pub fn create_job(
    job_id: String,
    client: Pubkey,
    job_type: u8,
    price: u64,
    requirements_hash: String,
    now: i64,
    bump: u8,
) -> (result: Result<JobAccount, JobReceiptError>)
    ensures
        match result {
            Ok(job) => {
                &&& create_rejection(job_id@, job_type, price, requirements_hash@) is None
                &&& job@ == (JobAccountView {
                    job_id: job_id@,
                    client,
                    assigned_node: None,
                    job_type: JobType::spec_from_code(job_type)->0,
                    price,
                    requirements_hash: requirements_hash@,
                    created_at: now,
                    completed_at: 0,
                    status: JobStatus::Pending,
                    result_hash: Seq::<char>::empty(),
                    logs_url: Seq::<char>::empty(),
                    payment_settled: false,
                    bump,
                })
            },
            Err(e) => create_rejection(job_id@, job_type, price, requirements_hash@) == Some(e),
        },
{
    if job_id.as_str().unicode_len() > MAX_JOB_ID_LEN {
        return Err(JobReceiptError::JobIdTooLong);
    }
    let kind = match JobType::from_code(job_type) {
        Some(kind) => kind,
        None => {
            return Err(JobReceiptError::InvalidJobType);
        },
    };
    if price == 0 {
        return Err(JobReceiptError::InvalidPrice);
    }
    if requirements_hash.as_str().unicode_len() > MAX_REQUIREMENTS_HASH_LEN {
        return Err(JobReceiptError::RequirementsHashTooLong);
    }
    Ok(
        JobAccount {
            job_id,
            client,
            assigned_node: None,
            job_type: kind,
            price,
            requirements_hash,
            created_at: now,
            completed_at: 0,
            status: JobStatus::Pending,
            result_hash: String::new(),
            logs_url: String::new(),
            payment_settled: false,
            bump,
        },
    )
}

/// Hands a pending job to the worker `node_operator`.
///
/// Fails with `JobNotPending`, changing nothing, exactly when the job is not
/// pending.
pub fn assign_job(job: &mut JobAccount, node_operator: Pubkey) -> (result: Result<
    (),
    JobReceiptError,
>)
    ensures
        match result {
            Ok(()) => {
                &&& assign_rejection(old(job)@) is None
                &&& final(job)@ == (JobAccountView {
                    assigned_node: Some(node_operator),
                    status: JobStatus::Assigned,
                    ..old(job)@
                })
                &&& old(job).status.spec_can_transition_to(final(job).status)
            },
            Err(e) => {
                &&& assign_rejection(old(job)@) == Some(e)
                &&& final(job)@ == old(job)@
            },
        },
{
    if !job.can_be_assigned() {
        return Err(JobReceiptError::JobNotPending);
    }
    job.assigned_node = Some(node_operator);
    job.status = JobStatus::Assigned;
    Ok(())
}

/// Records the result that the worker `caller` delivers at time `now`.
///
/// On success the job is completed and holds the result hash, the reference
/// to the logs and the time of completion. Fails, changing nothing, with the
/// first of `submit_rejection` that applies: `ResultHashInvalid` for a hash
/// of more than 64 characters, `LogsUrlTooLong` for a reference of more than
/// 128 characters, `JobNotAssigned` when the job is neither assigned nor
/// running, `Unauthorized` when `caller` is not the assigned worker.
pub fn submit_result(
    job: &mut JobAccount,
    caller: Pubkey,
    result_hash: String,
    logs_url: String,
    now: i64,
) -> (result: Result<(), JobReceiptError>)
    ensures
        match result {
            Ok(()) => {
                &&& submit_rejection(old(job)@, caller, result_hash@, logs_url@) is None
                &&& final(job)@ == (JobAccountView {
                    result_hash: result_hash@,
                    logs_url: logs_url@,
                    completed_at: now,
                    status: JobStatus::Completed,
                    ..old(job)@
                })
                &&& old(job).status.spec_can_transition_to(final(job).status)
            },
            Err(e) => {
                &&& submit_rejection(old(job)@, caller, result_hash@, logs_url@) == Some(e)
                &&& final(job)@ == old(job)@
            },
        },
{
    if result_hash.as_str().unicode_len() > MAX_RESULT_HASH_LEN {
        return Err(JobReceiptError::ResultHashInvalid);
    }
    if logs_url.as_str().unicode_len() > MAX_LOGS_URL_LEN {
        return Err(JobReceiptError::LogsUrlTooLong);
    }
    if !job.can_submit_result() {
        return Err(JobReceiptError::JobNotAssigned);
    }
    let authorized = match job.assigned_node {
        Some(node) => node == caller,
        None => false,
    };
    if !authorized {
        return Err(JobReceiptError::Unauthorized);
    }
    job.result_hash = result_hash;
    job.logs_url = logs_url;
    job.completed_at = now;
    job.status = JobStatus::Completed;
    Ok(())
}

/// Settles the payment of a completed job, once.
///
/// On success the job is marked settled and the three payments are
/// returned: 80 percent of the price for the worker, 10 for the treasury, 5
/// for the incentive pool, each rounded down; together they are no more than
/// the price. The caller makes the payments. Fails, changing nothing, with
/// `JobNotCompleted` when the job is not completed and with
/// `JobAlreadySettled` when it was settled before.
pub fn settle_job(job: &mut JobAccount) -> (result: Result<Settlement, JobReceiptError>)
    ensures
        match result {
            Ok(settlement) => {
                &&& settle_rejection(old(job)@) is None
                &&& settlement == settlement_for(old(job).price)
                &&& settlement.operator_amount + settlement.treasury_amount
                    + settlement.incentive_amount <= old(job).price
                &&& final(job)@ == after_settle(old(job)@)
            },
            Err(e) => {
                &&& settle_rejection(old(job)@) == Some(e)
                &&& final(job)@ == old(job)@
            },
        },
{
    if !job.is_completed() {
        return Err(JobReceiptError::JobNotCompleted);
    }
    if job.payment_settled {
        return Err(JobReceiptError::JobAlreadySettled);
    }
    let operator_amount = percentage(job.price, OPERATOR_PERCENT);
    let treasury_amount = percentage(job.price, TREASURY_PERCENT);
    let incentive_amount = percentage(job.price, INCENTIVE_PERCENT);
    proof {
        lemma_settlement_within_price(job.price);
    }
    job.payment_settled = true;
    Ok(Settlement { operator_amount, treasury_amount, incentive_amount })
}

/// Cancels a pending or assigned job on behalf of its client.
///
/// Fails, changing nothing, with `Unauthorized` when `caller` is not the
/// client, and with `InvalidJobStatus` when the job is neither pending nor
/// assigned.
pub fn cancel_job(job: &mut JobAccount, caller: Pubkey) -> (result: Result<(), JobReceiptError>)
    ensures
        match result {
            Ok(()) => {
                &&& cancel_rejection(old(job)@, caller) is None
                &&& final(job)@ == (JobAccountView { status: JobStatus::Cancelled, ..old(job)@ })
                &&& old(job).status.spec_can_transition_to(final(job).status)
            },
            Err(e) => {
                &&& cancel_rejection(old(job)@, caller) == Some(e)
                &&& final(job)@ == old(job)@
            },
        },
{
    if job.client != caller {
        return Err(JobReceiptError::Unauthorized);
    }
    if !(job.is_pending() || job.is_assigned()) {
        return Err(JobReceiptError::InvalidJobStatus);
    }
    job.status = JobStatus::Cancelled;
    Ok(())
}

/// The three payments of a settlement are together no more than the price.
pub proof fn lemma_settlement_within_price(price: u64)
    ensures
        proportion(price as int, OPERATOR_PERCENT as int, 100) + proportion(
            price as int,
            TREASURY_PERCENT as int,
            100,
        ) + proportion(price as int, INCENTIVE_PERCENT as int, 100) <= price,
{
}

/// A job is settled at most once: after a settlement that succeeded, every
/// further one is rejected with `JobAlreadySettled`.
pub proof fn lemma_settle_at_most_once(job: JobAccountView)
    requires
        settle_rejection(job) is None,
    ensures
        settle_rejection(after_settle(job)) == Some(JobReceiptError::JobAlreadySettled),
{
}

} // verus!
