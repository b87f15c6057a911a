use vstd::prelude::*;
use crate::time::Timestamp;

verus! {

/// A background job as the use cases see it.
pub struct Model {
    pub id: i64,
    pub job_type: JobType,
    pub job_args: serde_json::Value,
    pub status: JobStatus,
    pub description: String,
    pub error_message: String,
    pub success: bool,
    pub created_by_id: i64,
    pub created_at: Timestamp,
    pub completed_at: Option<Timestamp>,
}

#[derive(Debug, Clone, Copy, PartialEq, Eq, Structural)]
pub enum JobType {
    Undefined,
    ScanIncremental,
    BuildIndex,
    UpdateIndex,
}

#[derive(Debug, Clone, Copy, PartialEq, Eq, Structural)]
pub enum JobStatus {
    Undefined,
    WaitingStart,
    Running,
    Completed,
}

/// The small integer a job type is stored as.
pub open spec fn job_type_code(t: JobType) -> i16 {
    match t {
        JobType::Undefined => 0,
        JobType::ScanIncremental => 1,
        JobType::BuildIndex => 2,
        JobType::UpdateIndex => 3,
    }
}

/// The small integer a job status is stored as.
pub open spec fn job_status_code(s: JobStatus) -> i16 {
    match s {
        JobStatus::Undefined => 0,
        JobStatus::WaitingStart => 1,
        JobStatus::Running => 2,
        JobStatus::Completed => 3,
    }
}

impl JobType {
    pub fn code(&self) -> (r: i16)
        ensures
            r == job_type_code(*self),
    {
        match self {
            JobType::Undefined => 0,
            JobType::ScanIncremental => 1,
            JobType::BuildIndex => 2,
            JobType::UpdateIndex => 3,
        }
    }

    /// The job type stored as `code`, if any.
    pub fn from_code(code: i16) -> (r: Option<JobType>)
        ensures
            r is Some <==> 0 <= code <= 3,
            r matches Some(t) ==> job_type_code(t) == code,
    {
        match code {
            0 => Some(JobType::Undefined),
            1 => Some(JobType::ScanIncremental),
            2 => Some(JobType::BuildIndex),
            3 => Some(JobType::UpdateIndex),
            _ => None,
        }
    }
}

impl JobStatus {
    pub fn code(&self) -> (r: i16)
        ensures
            r == job_status_code(*self),
    {
        match self {
            JobStatus::Undefined => 0,
            JobStatus::WaitingStart => 1,
            JobStatus::Running => 2,
            JobStatus::Completed => 3,
        }
    }

    /// The job status stored as `code`, if any.
    pub fn from_code(code: i16) -> (r: Option<JobStatus>)
        ensures
            r is Some <==> 0 <= code <= 3,
            r matches Some(s) ==> job_status_code(s) == code,
    {
        match code {
            0 => Some(JobStatus::Undefined),
            1 => Some(JobStatus::WaitingStart),
            2 => Some(JobStatus::Running),
            3 => Some(JobStatus::Completed),
            _ => None,
        }
    }
}

/// Storing a job type and reading it back gives the same job type, and
/// distinct job types are stored as distinct codes.
pub proof fn lemma_job_type_code_roundtrip(a: JobType, b: JobType)
    ensures
        0 <= job_type_code(a) <= 3,
        job_type_code(a) == job_type_code(b) ==> a == b,
{
}

/// Storing a job status and reading it back gives the same status, and
/// distinct statuses are stored as distinct codes.
pub proof fn lemma_job_status_code_roundtrip(a: JobStatus, b: JobStatus)
    ensures
        0 <= job_status_code(a) <= 3,
        job_status_code(a) == job_status_code(b) ==> a == b,
{
}

} // verus!
