//! What the dashboard knows of the automatic allocator: its queues and their allocations.
use crate::Timestamp;
use vstd::prelude::*;

verus! {

/// Identifier of an allocation queue.
pub type DescriptorId = u32;

/// Identifier of an allocation, as the batch system names it.
pub type AllocationId = String;

/// One allocation in the queue of a batch system.
#[derive(Debug, Clone, Copy, PartialEq, Eq, Structural)]
pub struct AllocationInfo {
    /// The number of workers that the allocation asks for.
    pub worker_count: u64,
    /// When the allocation was put into the queue.
    pub queued_time: Timestamp,
    /// When the allocation started to run, if it has.
    pub start_time: Option<Timestamp>,
    /// When the allocation finished, if it has.
    pub finish_time: Option<Timestamp>,
}

/// One allocation queue.
#[derive(Debug, Clone, PartialEq, Eq)]
pub struct AllocationQueueInfo {
    /// When the queue was created.
    pub creation_time: Timestamp,
    /// When the queue was removed, if it was.
    pub removal_time: Option<Timestamp>,
    /// The allocations of the queue.
    pub allocations: Vec<(AllocationId, AllocationInfo)>,
}

/// Where an allocation stands.
#[derive(Debug, Clone, Copy, PartialEq, Eq, Structural)]
pub enum AllocState {
    Queued,
    Running,
    Finished,
}

/// Where an allocation stands at `query_time`: it has finished if it finished before; else it
/// runs if it started before; else it waits in the queue.
pub open spec fn alloc_state_at(info: AllocationInfo, query_time: Timestamp) -> AllocState {
    if info.finish_time matches Some(finish) && finish < query_time {
        AllocState::Finished
    } else if info.start_time matches Some(start) && start < query_time {
        AllocState::Running
    } else {
        AllocState::Queued
    }
}

/// Where an allocation stands at `query_time`.
pub fn get_alloc_state(info: &AllocationInfo, query_time: Timestamp) -> (state: AllocState)
    ensures
        state == alloc_state_at(*info, query_time),
{
    let has_started = match info.start_time {
        None => false,
        Some(start_time) => start_time < query_time,
    };
    let has_finished = match info.finish_time {
        None => false,
        Some(finish_time) => finish_time < query_time,
    };
    if has_started && !has_finished {
        AllocState::Running
    } else if has_finished {
        AllocState::Finished
    } else {
        AllocState::Queued
    }
}

} // verus!
