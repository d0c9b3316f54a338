//! Job types and job states, and the moves between states.

use vstd::prelude::*;

verus! {

/// Kind of work a job asks for.
#[derive(Clone, Copy, Debug, PartialEq, Eq, Hash, Structural)]
pub enum JobType {
    LlmInference,
    LlmFineTuning,
    RagIndexing,
    VisionPipeline,
    Render,
    GenericCompute,
}

/// State of a job.
#[derive(Clone, Copy, Debug, PartialEq, Eq, Hash, Structural)]
pub enum JobStatus {
    /// Created, waiting for a worker.
    Pending,
    /// Handed to a worker.
    Assigned,
    /// Being worked on.
    Running,
    /// Result delivered.
    Completed,
    /// Given up by the worker.
    Failed,
    /// Withdrawn by the client.
    Cancelled,
}

impl JobType {
    /// The number that stands for this type, from 0 to 5.
    pub open spec fn spec_code(self) -> u8 {
        match self {
            JobType::LlmInference => 0,
            JobType::LlmFineTuning => 1,
            JobType::RagIndexing => 2,
            JobType::VisionPipeline => 3,
            JobType::Render => 4,
            JobType::GenericCompute => 5,
        }
    }

    /// The type that `code` stands for, if it stands for one.
    pub open spec fn spec_from_code(code: u8) -> Option<JobType> {
        if code == 0 {
            Some(JobType::LlmInference)
        } else if code == 1 {
            Some(JobType::LlmFineTuning)
        } else if code == 2 {
            Some(JobType::RagIndexing)
        } else if code == 3 {
            Some(JobType::VisionPipeline)
        } else if code == 4 {
            Some(JobType::Render)
        } else if code == 5 {
            Some(JobType::GenericCompute)
        } else {
            None
        }
    }

    /// The number that stands for this type.
    pub fn code(self) -> (code: u8)
        ensures
            code == self.spec_code(),
            code <= 5,
            Self::spec_from_code(code) == Some(self),
    {
        match self {
            JobType::LlmInference => 0,
            JobType::LlmFineTuning => 1,
            JobType::RagIndexing => 2,
            JobType::VisionPipeline => 3,
            JobType::Render => 4,
            JobType::GenericCompute => 5,
        }
    }

    /// The type that `code` stands for; `None` exactly when `code` is above
    /// 5.
    pub fn from_code(code: u8) -> (job_type: Option<JobType>)
        ensures
            job_type == Self::spec_from_code(code),
            job_type is Some <==> code <= 5,
            job_type matches Some(t) ==> t.spec_code() == code,
    {
        match code {
            0 => Some(JobType::LlmInference),
            1 => Some(JobType::LlmFineTuning),
            2 => Some(JobType::RagIndexing),
            3 => Some(JobType::VisionPipeline),
            4 => Some(JobType::Render),
            5 => Some(JobType::GenericCompute),
            _ => None,
        }
    }
}

impl JobStatus {
    /// The number that stands for this state, from 0 to 5.
    pub open spec fn spec_code(self) -> u8 {
        match self {
            JobStatus::Pending => 0,
            JobStatus::Assigned => 1,
            JobStatus::Running => 2,
            JobStatus::Completed => 3,
            JobStatus::Failed => 4,
            JobStatus::Cancelled => 5,
        }
    }

    /// The state that `code` stands for, if it stands for one.
    pub open spec fn spec_from_code(code: u8) -> Option<JobStatus> {
        if code == 0 {
            Some(JobStatus::Pending)
        } else if code == 1 {
            Some(JobStatus::Assigned)
        } else if code == 2 {
            Some(JobStatus::Running)
        } else if code == 3 {
            Some(JobStatus::Completed)
        } else if code == 4 {
            Some(JobStatus::Failed)
        } else if code == 5 {
            Some(JobStatus::Cancelled)
        } else {
            None
        }
    }

    /// Whether a job in this state may move to `next`. These are all the
    /// moves there are: a pending job is assigned or cancelled, an assigned
    /// job is completed or cancelled, a running job is completed.
    pub open spec fn spec_can_transition_to(self, next: JobStatus) -> bool {
        match (self, next) {
            (JobStatus::Pending, JobStatus::Assigned) => true,
            (JobStatus::Pending, JobStatus::Cancelled) => true,
            (JobStatus::Assigned, JobStatus::Completed) => true,
            (JobStatus::Assigned, JobStatus::Cancelled) => true,
            (JobStatus::Running, JobStatus::Completed) => true,
            _ => false,
        }
    }

    /// Whether no move leads out of this state.
    pub open spec fn spec_is_terminal(self) -> bool {
        self == JobStatus::Completed || self == JobStatus::Failed || self == JobStatus::Cancelled
    }

    /// The number that stands for this state.
    pub fn code(self) -> (code: u8)
        ensures
            code == self.spec_code(),
            code <= 5,
            Self::spec_from_code(code) == Some(self),
    {
        match self {
            JobStatus::Pending => 0,
            JobStatus::Assigned => 1,
            JobStatus::Running => 2,
            JobStatus::Completed => 3,
            JobStatus::Failed => 4,
            JobStatus::Cancelled => 5,
        }
    }

    /// The state that `code` stands for; `None` exactly when `code` is above
    /// 5, so that no state out of range can be made.
    pub fn from_code(code: u8) -> (status: Option<JobStatus>)
        ensures
            status == Self::spec_from_code(code),
            status is Some <==> code <= 5,
            status matches Some(s) ==> s.spec_code() == code,
    {
        match code {
            0 => Some(JobStatus::Pending),
            1 => Some(JobStatus::Assigned),
            2 => Some(JobStatus::Running),
            3 => Some(JobStatus::Completed),
            4 => Some(JobStatus::Failed),
            5 => Some(JobStatus::Cancelled),
            _ => None,
        }
    }

    /// Whether a job in this state may move to `next`.
    pub fn can_transition_to(self, next: JobStatus) -> (allowed: bool)
        ensures
            allowed == self.spec_can_transition_to(next),
    {
        match (self, next) {
            (JobStatus::Pending, JobStatus::Assigned) => true,
            (JobStatus::Pending, JobStatus::Cancelled) => true,
            (JobStatus::Assigned, JobStatus::Completed) => true,
            (JobStatus::Assigned, JobStatus::Cancelled) => true,
            (JobStatus::Running, JobStatus::Completed) => true,
            _ => false,
        }
    }
}

/// Every move goes forward: the number of the state grows, and no move leads
/// out of a completed, failed or cancelled job.
pub proof fn lemma_transitions_go_forward(from: JobStatus, to: JobStatus)
    requires
        from.spec_can_transition_to(to),
    ensures
        from.spec_code() < to.spec_code(),
        !from.spec_is_terminal(),
{
}

/// Whether the state at position `i + 1` of `trace` follows from the state
/// at position `i` by an allowed move.
pub open spec fn is_allowed_step(trace: Seq<JobStatus>, i: int) -> bool {
    trace[i].spec_can_transition_to(trace[i + 1])
}

/// Whether `trace` is a history a job can have: it begins at `Pending` and
/// each state follows from the one before by an allowed move.
pub open spec fn is_job_history(trace: Seq<JobStatus>) -> bool {
    &&& trace.len() > 0
    &&& trace[0] == JobStatus::Pending
    &&& forall|i: int| 0 <= i < trace.len() - 1 ==> #[trigger] is_allowed_step(trace, i)
}

/// The histories a job can have are the beginnings of pending, assigned,
/// completed, and those that end in a cancellation of a pending or an
/// assigned job. There are no others.
pub proof fn lemma_job_histories(trace: Seq<JobStatus>)
    requires
        is_job_history(trace),
    ensures
        trace == seq![JobStatus::Pending] || trace == seq![JobStatus::Pending, JobStatus::Assigned]
            || trace == seq![JobStatus::Pending, JobStatus::Assigned, JobStatus::Completed]
            || trace == seq![JobStatus::Pending, JobStatus::Cancelled] || trace
            == seq![JobStatus::Pending, JobStatus::Assigned, JobStatus::Cancelled],
{
    if trace.len() == 1 {
        assert(trace =~= seq![JobStatus::Pending]);
    } else {
        assert(is_allowed_step(trace, 0));
        if trace.len() == 2 {
            assert(trace =~= seq![JobStatus::Pending, trace[1]]);
        } else {
            assert(is_allowed_step(trace, 1));
            if trace.len() == 3 {
                assert(trace =~= seq![JobStatus::Pending, JobStatus::Assigned, trace[2]]);
            } else {
                assert(is_allowed_step(trace, 2));
            }
        }
    }
}

} // verus!
