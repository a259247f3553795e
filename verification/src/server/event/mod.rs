//! What the server reports of the life of jobs, tasks, workers and allocations.
use crate::server::event::events::MonitoringEventPayload;
use crate::Timestamp;
use vstd::prelude::*;

pub mod events;

verus! {

/// Identifier of an event. Later events have larger identifiers.
pub type MonitoringEventId = u32;

/// Something that happened, with the time at which it did.
#[derive(Debug, Clone, PartialEq, Eq)]
pub struct MonitoringEvent {
    pub id: MonitoringEventId,
    pub time: Timestamp,
    pub payload: MonitoringEventPayload,
}

impl MonitoringEvent {
    /// The identifier of the event.
    pub fn id(&self) -> (id: MonitoringEventId)
        ensures
            id == self.id,
    {
        self.id
    }

    /// The time of the event.
    pub fn time(&self) -> (time: Timestamp)
        ensures
            time == self.time,
    {
        self.time
    }
}

} // verus!
