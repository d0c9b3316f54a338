//! The job lifecycle: a unit of work from creation to payment.

pub mod error;
pub mod job_account;
pub mod lifecycle;
pub mod status;

pub use error::JobReceiptError;
pub use job_account::{JobAccount, JobAccountView};
pub use lifecycle::{assign_job, cancel_job, create_job, settle_job, submit_result, Settlement};
pub use status::{JobStatus, JobType};
