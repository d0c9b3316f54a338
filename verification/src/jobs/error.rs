//! Failures of the job lifecycle.

use vstd::prelude::*;

verus! {

/// Why a job operation was rejected. A rejected operation leaves the job
/// record as it was.
#[derive(Clone, Copy, Debug, PartialEq, Eq, Hash, Structural)]
pub enum JobReceiptError {
    /// The job identifier has more than 32 characters.
    JobIdTooLong,
    /// A job with this identifier exists already.
    JobAlreadyExists,
    /// No job with this identifier exists.
    JobNotFound,
    /// The job type is not one of the six known types.
    InvalidJobType,
    /// The job is in a state from which it cannot be cancelled.
    InvalidJobStatus,
    /// The job is not waiting for a worker.
    JobNotPending,
    /// The job is not in the hands of a worker.
    JobNotAssigned,
    /// The job has not been completed.
    JobNotCompleted,
    /// The job's payment was settled before.
    JobAlreadySettled,
    /// The caller is not the party the operation is reserved for.
    Unauthorized,
    /// The price is zero.
    InvalidPrice,
    /// The requirements hash has more than 64 characters.
    RequirementsHashTooLong,
    /// The result hash has more than 64 characters.
    ResultHashInvalid,
    /// The reference to the logs has more than 128 characters.
    LogsUrlTooLong,
}

} // verus!
