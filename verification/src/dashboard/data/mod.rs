//! The data behind the dashboard: what it has fetched from the server so far.
use crate::dashboard::data::job_timeline::{
    apply_events, distinct_entries, worker_task_history, DashboardJobInfoView, JobTimeline,
    JobTimelineView, TaskInfo,
};
use crate::server::event::{MonitoringEvent, MonitoringEventId};
use crate::{JobId, TakoTaskId, Timestamp, WorkerId};
use vstd::prelude::*;

pub mod alloc_timeline;
pub mod job_timeline;
pub mod search;

verus! {

/// Whether the times of `events` never go down.
pub open spec fn is_sorted_by_time(events: Seq<MonitoringEvent>) -> bool {
    forall|i: int, j: int| 0 <= i <= j < events.len() ==> events[i].time <= events[j].time
}

/// The largest identifier among `events`, if there is an event.
pub open spec fn max_event_id(events: Seq<MonitoringEvent>) -> Option<MonitoringEventId>
    decreases events.len(),
{
    if events.len() == 0 {
        None
    } else {
        match max_event_id(events.drop_last()) {
            Some(id) => if id >= events.last().id {
                Some(id)
            } else {
                Some(events.last().id)
            },
            None => Some(events.last().id),
        }
    }
}

/// Whether the cursor `later` does not lie before the cursor `earlier`. A cursor that names no
/// event lies before every cursor that names one.
pub open spec fn cursor_le(
    earlier: Option<MonitoringEventId>,
    later: Option<MonitoringEventId>,
) -> bool {
    match (earlier, later) {
        (None, _) => true,
        (Some(_), None) => false,
        (Some(a), Some(b)) => a <= b,
    }
}

/// The cursor once a batch has been taken in whose largest identifier is `batch`: the larger
/// of the cursor before and `batch`. A batch without events, and a batch of events that all lie
/// before the cursor, leave the cursor where it was.
pub open spec fn advanced_cursor(
    cursor: Option<MonitoringEventId>,
    batch: Option<MonitoringEventId>,
) -> Option<MonitoringEventId> {
    match (cursor, batch) {
        (Some(a), Some(b)) => Some(if a >= b { a } else { b }),
        (None, b) => b,
        (a, None) => a,
    }
}

/// The cursor never moves backwards, and it never stays behind a batch that was taken in.
pub proof fn lemma_cursor_only_advances(
    cursor: Option<MonitoringEventId>,
    batch: Option<MonitoringEventId>,
)
    ensures
        cursor_le(cursor, advanced_cursor(cursor, batch)),
        cursor_le(batch, advanced_cursor(cursor, batch)),
        advanced_cursor(cursor, batch) == cursor || advanced_cursor(cursor, batch) == batch,
{
}

/// `sort_unstable_by_key` of a slice, with the time of an event as its key: afterwards the
/// events are the same ones as before, in an order in which their times never go down. Which
/// of two events of one time comes first is left open.
#[verifier::external_body]
fn sort_events_by_time(events: &mut Vec<MonitoringEvent>)
    ensures
        is_sorted_by_time(final(events)@),
        final(events)@.to_multiset() == old(events)@.to_multiset(),
{
    events.sort_unstable_by_key(|event| event.time())
}

/// What the dashboard has fetched from the server.
pub struct DashboardData {
    /// The event_id until which the data has already been fetched for
    fetched_until: Option<MonitoringEventId>,
    /// Tracks task related events
    tasks_timeline: JobTimeline,
}

/// What the dashboard has fetched from the server, as a mathematical value.
pub struct DashboardDataView {
    pub fetched_until: Option<MonitoringEventId>,
    pub tasks_timeline: JobTimelineView,
}

impl View for DashboardData {
    type V = DashboardDataView;

    closed spec fn view(&self) -> DashboardDataView {
        DashboardDataView {
            fetched_until: self.fetched_until,
            tasks_timeline: self.tasks_timeline@,
        }
    }
}

impl DashboardData {
    /// A dashboard that has fetched nothing.
    pub fn new() -> (data: Self)
        ensures
            data@.fetched_until == None::<MonitoringEventId>,
            data@.tasks_timeline == Seq::<(JobId, DashboardJobInfoView)>::empty(),
            distinct_entries(data@.tasks_timeline),
    {
        DashboardData { fetched_until: None, tasks_timeline: JobTimeline::new() }
    }

    /// The cursor of the dashboard: the largest identifier among all events that have been
    /// fetched, after which the next events are to be asked for.
    pub fn last_fetched_id(&self) -> (id: Option<MonitoringEventId>)
        ensures
            id == self@.fetched_until,
    {
        self.fetched_until
    }

    /// Takes in events that have been fetched.
    ///
    /// The cursor moves on to the largest identifier among `events` if that lies behind it, and
    /// stays where it was otherwise: it never moves backwards, whatever is taken in. The
    /// timeline of jobs takes note of the events in the order of their times; events of one
    /// time are taken in an order that is left open.
    pub fn update_data(&mut self, events: Vec<MonitoringEvent>)
        ensures
            final(self)@.fetched_until == advanced_cursor(
                old(self)@.fetched_until,
                max_event_id(events@),
            ),
            cursor_le(old(self)@.fetched_until, final(self)@.fetched_until),
            exists|sorted: Seq<MonitoringEvent>|
                #![trigger is_sorted_by_time(sorted)]
                {
                    &&& is_sorted_by_time(sorted)
                    &&& sorted.to_multiset() == events@.to_multiset()
                    &&& final(self)@.tasks_timeline == apply_events(
                        old(self)@.tasks_timeline,
                        sorted,
                    )
                },
            distinct_entries(old(self)@.tasks_timeline) ==> distinct_entries(
                final(self)@.tasks_timeline,
            ),
    {
        let mut events = events;
        let mut newest: Option<MonitoringEventId> = None;
        let mut i: usize = 0;
        while i < events.len()
            invariant
                i <= events@.len(),
                newest == max_event_id(events@.take(i as int)),
            decreases events@.len() - i,
        {
            assert(events@.take(i + 1).drop_last() =~= events@.take(i as int));
            let id = events[i].id();
            newest = match newest {
                Some(max) => if max >= id {
                    Some(max)
                } else {
                    Some(id)
                },
                None => Some(id),
            };
            i = i + 1;
        }
        assert(events@.take(i as int) =~= events@);
        self.fetched_until = match (self.fetched_until, newest) {
            (Some(cursor), Some(id)) => if cursor >= id {
                Some(cursor)
            } else {
                Some(id)
            },
            (None, id) => id,
            (cursor, None) => cursor,
        };
        sort_events_by_time(&mut events);
        self.tasks_timeline.handle_new_events(events.as_slice());
    }

    /// The tasks that started on `worker_id` not later than `now`.
    pub fn query_task_history_for_worker(&self, worker_id: WorkerId, now: Timestamp) -> (history:
        Vec<(TakoTaskId, TaskInfo)>)
        ensures
            history@ == worker_task_history(self@.tasks_timeline, worker_id, now),
    {
        self.tasks_timeline.get_worker_task_history(worker_id, now)
    }

    /// The timeline of jobs.
    pub fn tasks_timeline(&self) -> (timeline: &JobTimeline)
        ensures
            timeline@ == self@.tasks_timeline,
    {
        &self.tasks_timeline
    }
}

impl Default for DashboardData {
    fn default() -> (data: Self)
        ensures
            data@.fetched_until == None::<MonitoringEventId>,
            data@.tasks_timeline == Seq::<(JobId, DashboardJobInfoView)>::empty(),
    {
        DashboardData::new()
    }
}

} // verus!
