//! The kinds of events.
use crate::dashboard::data::alloc_timeline::{AllocationId, DescriptorId};
use crate::{JobId, JobTaskCount, TakoTaskId, Timestamp, WorkerId};
use std::path::PathBuf;
use vstd::prelude::*;
use vstd::slice::slice_to_vec;

verus! {

/// What happened.
#[derive(Debug, Clone, PartialEq, Eq)]
pub enum MonitoringEventPayload {
    /// New worker has connected to the server
    WorkerConnected(WorkerId),
    /// Worker has disconnected from the server
    WorkerLost(WorkerId),
    /// Worker has proactively sent its overview (task status and HW utilization report) to the
    /// server
    WorkerOverviewReceived(WorkerId),
    /// A Job was submitted by the user.
    JobCreated(JobId, Box<JobInfo>),
    /// All tasks of the job have finished.
    JobCompleted(JobId, Timestamp),
    /// Task has started to execute on some worker
    TaskStarted { task_id: TakoTaskId, worker_id: WorkerId },
    /// Task has been finished
    TaskFinished(TakoTaskId),
    /// Task that failed to execute
    TaskFailed(TakoTaskId),
    /// New allocation queue has been created
    AllocationQueueCreated(DescriptorId),
    /// Allocation queue has been removed
    AllocationQueueRemoved(DescriptorId),
    /// Allocation was submitted into PBS/Slurm
    AllocationQueued {
        descriptor_id: DescriptorId,
        allocation_id: AllocationId,
        worker_count: u64,
    },
    /// PBS/Slurm allocation started executing
    AllocationStarted(DescriptorId, AllocationId),
    /// PBS/Slurm allocation has finished executing
    AllocationFinished(DescriptorId, AllocationId),
}

/// What is known of a job when it is created.
#[derive(Debug, Clone, PartialEq, Eq)]
pub struct JobInfo {
    pub name: String,
    pub task_ids: Vec<TakoTaskId>,
    pub max_fails: Option<JobTaskCount>,
    pub log: Option<PathBuf>,
    pub submission_date: Timestamp,
    pub completion_date: Option<Timestamp>,
}

/// What is known of a job when it is created, as a mathematical value.
pub struct JobInfoView {
    pub name: Seq<char>,
    pub task_ids: Seq<TakoTaskId>,
    pub max_fails: Option<JobTaskCount>,
    pub log: Option<PathBuf>,
    pub submission_date: Timestamp,
    pub completion_date: Option<Timestamp>,
}

impl View for JobInfo {
    type V = JobInfoView;

    open spec fn view(&self) -> JobInfoView {
        JobInfoView {
            name: self.name@,
            task_ids: self.task_ids@,
            max_fails: self.max_fails,
            log: self.log,
            submission_date: self.submission_date,
            completion_date: self.completion_date,
        }
    }
}

impl JobInfo {
    /// A copy that holds what `self` holds.
    pub fn duplicate(&self) -> (copy: JobInfo)
        ensures
            copy@ == self@,
    {
        let log = match &self.log {
            Some(path) => Some(path.clone()),
            None => None,
        };
        JobInfo {
            name: self.name.clone(),
            task_ids: slice_to_vec(self.task_ids.as_slice()),
            max_fails: self.max_fails,
            log,
            submission_date: self.submission_date,
            completion_date: self.completion_date,
        }
    }

    /// Whether `task_id` is a task of the job.
    pub fn has_task(&self, task_id: TakoTaskId) -> (found: bool)
        ensures
            found == self@.task_ids.contains(task_id),
    {
        let mut i: usize = 0;
        while i < self.task_ids.len()
            invariant
                i <= self.task_ids@.len(),
                forall|j: int| 0 <= j < i ==> self.task_ids@[j] != task_id,
            decreases self.task_ids@.len() - i,
        {
            if self.task_ids[i] == task_id {
                return true;
            }
            i = i + 1;
        }
        false
    }
}

} // verus!
