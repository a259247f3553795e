//! What the server tells a client about a job.
use crate::{JobId, JobTaskCount, JobTaskId, Timestamp};
use vstd::prelude::*;

verus! {

/// How many tasks of a job stand where.
#[derive(Debug, Clone, Copy, PartialEq, Eq, Structural)]
pub struct JobTaskCounters {
    pub n_running_tasks: JobTaskCount,
    pub n_finished_tasks: JobTaskCount,
    pub n_failed_tasks: JobTaskCount,
    pub n_canceled_tasks: JobTaskCount,
}

impl JobTaskCounters {
    /// The number of tasks that run or have come to an end.
    pub open spec fn spec_n_counted_tasks(&self) -> u64 {
        (self.n_finished_tasks + self.n_canceled_tasks + self.n_failed_tasks
            + self.n_running_tasks) as u64
    }

    /// The number of tasks that run or have come to an end.
    #[verifier::when_used_as_spec(spec_n_counted_tasks)]
    pub fn n_counted_tasks(&self) -> (n: u64)
        ensures
            n == self.spec_n_counted_tasks(),
    {
        self.n_finished_tasks as u64 + self.n_canceled_tasks as u64 + self.n_failed_tasks as u64
            + self.n_running_tasks as u64
    }
}

/// The short description of a job.
#[derive(Debug, Clone, PartialEq, Eq)]
pub struct JobInfo {
    pub id: JobId,
    pub name: String,
    pub n_tasks: JobTaskCount,
    pub counters: JobTaskCounters,
}

/// The full description of a job.
#[derive(Debug, Clone, PartialEq, Eq)]
pub struct JobDetail {
    pub info: JobInfo,
    /// The tasks of the job.
    pub tasks: Vec<JobTaskId>,
    /// The number of failed tasks at which the job is given up, if there is such a number.
    pub max_fails: Option<JobTaskCount>,
    pub priority: i32,
    /// The time that a task of the job may take, in milliseconds, if it is limited.
    pub time_limit: Option<u64>,
    pub submission_date: Timestamp,
}

} // verus!
