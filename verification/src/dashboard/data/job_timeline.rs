//! What the dashboard knows of the tasks of jobs.
use crate::dashboard::data::search::{
    first_index, lemma_first_index_found, lemma_first_index_is_first, lemma_first_index_missing,
};
use crate::server::event::events::{JobInfo, JobInfoView, MonitoringEventPayload};
use crate::server::event::MonitoringEvent;
use crate::{JobId, TakoTaskId, Timestamp, WorkerId};
use vstd::prelude::*;

verus! {

/// Where a task stands.
#[derive(Debug, Clone, Copy, PartialEq, Eq, Structural)]
pub enum DashboardTaskState {
    Running,
    Finished,
    Failed,
}

/// What is known of a task that has started.
#[derive(Debug, Clone, Copy, PartialEq, Eq, Structural)]
pub struct TaskInfo {
    /// The worker on which the task runs.
    pub worker_id: WorkerId,
    /// When the task started.
    pub start_time: Timestamp,
    /// When the task ended, if it has.
    pub end_time: Option<Timestamp>,
    /// How the task ended, if it has.
    pub task_end_state: Option<DashboardTaskState>,
}

impl TaskInfo {
    /// A task with a time of its end has a way in which it ended.
    pub open spec fn wf(&self) -> bool {
        self.end_time is Some ==> self.task_end_state is Some
    }

    /// Where the task stands at `time`: it runs as long as it has not ended, and stands where
    /// it ended from then on.
    pub open spec fn state_at(&self, time: Timestamp) -> DashboardTaskState {
        match (self.end_time, self.task_end_state) {
            (Some(end_time), Some(state)) => if end_time > time {
                DashboardTaskState::Running
            } else {
                state
            },
            _ => DashboardTaskState::Running,
        }
    }

    /// A task that has started on `worker_id` at `start_time` and has not ended.
    pub fn new(worker_id: WorkerId, start_time: Timestamp) -> (info: TaskInfo)
        ensures
            info.wf(),
            info.worker_id == worker_id,
            info.start_time == start_time,
            info.end_time == None::<Timestamp>,
            info.task_end_state == None::<DashboardTaskState>,
    {
        TaskInfo { worker_id, start_time, end_time: None, task_end_state: None }
    }

    /// Records when and how the task ended.
    pub fn set_end_time_and_status(&mut self, end_time: &Timestamp, status: DashboardTaskState)
        ensures
            final(self).wf(),
            final(self).worker_id == old(self).worker_id,
            final(self).start_time == old(self).start_time,
            final(self).end_time == Some(*end_time),
            final(self).task_end_state == Some(status),
    {
        self.end_time = Some(*end_time);
        self.task_end_state = Some(status);
    }

    /// Where the task stands at `time`, which must not lie before the start of the task.
    pub fn get_task_state_at(&self, time: Timestamp) -> (state: DashboardTaskState)
        requires
            time >= self.start_time,
        ensures
            state == self.state_at(time),
    {
        match (self.end_time, self.task_end_state) {
            (Some(end_time), Some(state)) => {
                if end_time > time {
                    DashboardTaskState::Running
                } else {
                    state
                }
            },
            _ => DashboardTaskState::Running,
        }
    }
}

/// What the dashboard knows of a job.
#[derive(Debug, Clone, PartialEq, Eq)]
pub struct DashboardJobInfo {
    /// What was known of the job when it was created.
    pub job_info: JobInfo,
    /// The tasks of the job that have started, in the order of their first start.
    pub job_tasks_info: Vec<(TakoTaskId, TaskInfo)>,
    /// When the job was completed, if it was.
    pub completion_date: Option<Timestamp>,
}

/// What the dashboard knows of a job, as a mathematical value.
pub struct DashboardJobInfoView {
    pub job_info: JobInfoView,
    pub job_tasks_info: Seq<(TakoTaskId, TaskInfo)>,
    pub completion_date: Option<Timestamp>,
}

impl View for DashboardJobInfo {
    type V = DashboardJobInfoView;

    open spec fn view(&self) -> DashboardJobInfoView {
        DashboardJobInfoView {
            job_info: self.job_info@,
            job_tasks_info: self.job_tasks_info@,
            completion_date: self.completion_date,
        }
    }
}

/// The jobs that the dashboard knows of, in the order of their creation.
pub type JobTimelineView = Seq<(JobId, DashboardJobInfoView)>;

/// The property of being the entry of `job_id`.
pub open spec fn is_job(job_id: JobId) -> spec_fn((JobId, DashboardJobInfoView)) -> bool {
    |e: (JobId, DashboardJobInfoView)| e.0 == job_id
}

/// The property of being the entry of a job that has `task_id` among its tasks.
pub open spec fn owns_task(task_id: TakoTaskId) -> spec_fn((JobId, DashboardJobInfoView)) -> bool {
    |e: (JobId, DashboardJobInfoView)| e.1.job_info.task_ids.contains(task_id)
}

/// The property of being the entry of `task_id`.
pub open spec fn is_task(task_id: TakoTaskId) -> spec_fn((TakoTaskId, TaskInfo)) -> bool {
    |e: (TakoTaskId, TaskInfo)| e.0 == task_id
}

/// A job of which no task has started.
pub open spec fn created_job(info: JobInfoView) -> DashboardJobInfoView {
    DashboardJobInfoView { job_info: info, job_tasks_info: Seq::empty(), completion_date: None }
}

/// The jobs after `job_id` was created: the job is put behind the others, or into its old
/// place if it was known already, and none of its tasks has started.
pub open spec fn job_created(
    jobs: JobTimelineView,
    job_id: JobId,
    info: JobInfoView,
) -> JobTimelineView {
    match first_index(jobs, is_job(job_id)) {
        Some(i) => jobs.update(i, (job_id, created_job(info))),
        None => jobs.push((job_id, created_job(info))),
    }
}

/// The jobs after `job_id` was completed at `date`. A job that is not known changes nothing.
pub open spec fn job_completed(
    jobs: JobTimelineView,
    job_id: JobId,
    date: Timestamp,
) -> JobTimelineView {
    match first_index(jobs, is_job(job_id)) {
        Some(i) => jobs.update(
            i,
            (jobs[i].0, DashboardJobInfoView { completion_date: Some(date), ..jobs[i].1 }),
        ),
        None => jobs,
    }
}

/// The started tasks of a job after `task_id` has started: the task is put behind the others,
/// or into its old place if it had started before.
pub open spec fn task_put(
    tasks: Seq<(TakoTaskId, TaskInfo)>,
    task_id: TakoTaskId,
    info: TaskInfo,
) -> Seq<(TakoTaskId, TaskInfo)> {
    match first_index(tasks, is_task(task_id)) {
        Some(i) => tasks.update(i, (task_id, info)),
        None => tasks.push((task_id, info)),
    }
}

/// The jobs after `task_id` has started on `worker_id` at `time`: the first job that has the
/// task among its tasks counts it as started. A task of no job changes nothing.
pub open spec fn task_started(
    jobs: JobTimelineView,
    task_id: TakoTaskId,
    worker_id: WorkerId,
    time: Timestamp,
) -> JobTimelineView {
    match first_index(jobs, owns_task(task_id)) {
        Some(i) => jobs.update(
            i,
            (
                jobs[i].0,
                DashboardJobInfoView {
                    job_tasks_info: task_put(
                        jobs[i].1.job_tasks_info,
                        task_id,
                        TaskInfo {
                            worker_id,
                            start_time: time,
                            end_time: None,
                            task_end_state: None,
                        },
                    ),
                    ..jobs[i].1
                },
            ),
        ),
        None => jobs,
    }
}

/// The started tasks of a job after `task_id` has ended at `time` as `status`. A task that has
/// not started changes nothing.
pub open spec fn task_ended_in(
    tasks: Seq<(TakoTaskId, TaskInfo)>,
    task_id: TakoTaskId,
    status: DashboardTaskState,
    time: Timestamp,
) -> Seq<(TakoTaskId, TaskInfo)> {
    match first_index(tasks, is_task(task_id)) {
        Some(i) => tasks.update(
            i,
            (
                tasks[i].0,
                TaskInfo { end_time: Some(time), task_end_state: Some(status), ..tasks[i].1 },
            ),
        ),
        None => tasks,
    }
}

/// The jobs after `task_id` has ended at `time` as `status`: the first job that has the task
/// among its tasks records the end, if the task has started. A task of no job changes nothing.
pub open spec fn task_ended(
    jobs: JobTimelineView,
    task_id: TakoTaskId,
    status: DashboardTaskState,
    time: Timestamp,
) -> JobTimelineView {
    match first_index(jobs, owns_task(task_id)) {
        Some(i) => jobs.update(
            i,
            (
                jobs[i].0,
                DashboardJobInfoView {
                    job_tasks_info: task_ended_in(jobs[i].1.job_tasks_info, task_id, status, time),
                    ..jobs[i].1
                },
            ),
        ),
        None => jobs,
    }
}

/// The jobs after `event`. Events that are not about jobs or tasks change nothing.
pub open spec fn apply_event(jobs: JobTimelineView, event: MonitoringEvent) -> JobTimelineView {
    match event.payload {
        MonitoringEventPayload::JobCreated(job_id, info) => job_created(jobs, job_id, info@),
        MonitoringEventPayload::JobCompleted(job_id, date) => job_completed(jobs, job_id, date),
        MonitoringEventPayload::TaskStarted { task_id, worker_id } => task_started(
            jobs,
            task_id,
            worker_id,
            event.time,
        ),
        MonitoringEventPayload::TaskFinished(task_id) => task_ended(
            jobs,
            task_id,
            DashboardTaskState::Finished,
            event.time,
        ),
        MonitoringEventPayload::TaskFailed(task_id) => task_ended(
            jobs,
            task_id,
            DashboardTaskState::Failed,
            event.time,
        ),
        _ => jobs,
    }
}

/// The jobs after `events`, one after the other.
pub open spec fn apply_events(
    jobs: JobTimelineView,
    events: Seq<MonitoringEvent>,
) -> JobTimelineView
    decreases events.len(),
{
    if events.len() == 0 {
        jobs
    } else {
        apply_event(apply_events(jobs, events.drop_last()), events.last())
    }
}

/// Whether no task occurs twice among `tasks`.
pub open spec fn distinct_tasks(tasks: Seq<(TakoTaskId, TaskInfo)>) -> bool {
    forall|a: int, b: int| 0 <= a < b < tasks.len() ==> tasks[a].0 != tasks[b].0
}

/// Whether no job occurs twice among `jobs`, and no task twice among the started tasks of a
/// job.
pub open spec fn distinct_entries(jobs: JobTimelineView) -> bool {
    &&& forall|i: int, j: int| 0 <= i < j < jobs.len() ==> jobs[i].0 != jobs[j].0
    &&& forall|i: int| 0 <= i < jobs.len() ==> distinct_tasks(#[trigger] jobs[i].1.job_tasks_info)
}

/// Putting a task among the started ones never lets it occur twice.
pub proof fn lemma_task_put_keeps_distinct(
    tasks: Seq<(TakoTaskId, TaskInfo)>,
    task_id: TakoTaskId,
    info: TaskInfo,
)
    requires
        distinct_tasks(tasks),
    ensures
        distinct_tasks(task_put(tasks, task_id, info)),
{
    lemma_first_index_is_first(tasks, is_task(task_id));
}

/// An event never lets a job, or a task of a job, occur twice.
pub proof fn lemma_apply_event_keeps_distinct(jobs: JobTimelineView, event: MonitoringEvent)
    requires
        distinct_entries(jobs),
    ensures
        distinct_entries(apply_event(jobs, event)),
{
    let after = apply_event(jobs, event);
    match event.payload {
        MonitoringEventPayload::JobCreated(job_id, _) => {
            lemma_first_index_is_first(jobs, is_job(job_id));
        },
        MonitoringEventPayload::JobCompleted(job_id, _) => {
            lemma_first_index_is_first(jobs, is_job(job_id));
        },
        MonitoringEventPayload::TaskStarted { task_id, worker_id } => {
            lemma_first_index_is_first(jobs, owns_task(task_id));
            if let Some(i) = first_index(jobs, owns_task(task_id)) {
                lemma_task_put_keeps_distinct(
                    jobs[i].1.job_tasks_info,
                    task_id,
                    TaskInfo {
                        worker_id,
                        start_time: event.time,
                        end_time: None,
                        task_end_state: None,
                    },
                );
            }
        },
        MonitoringEventPayload::TaskFinished(task_id) => {
            lemma_first_index_is_first(jobs, owns_task(task_id));
            if let Some(i) = first_index(jobs, owns_task(task_id)) {
                lemma_first_index_is_first(jobs[i].1.job_tasks_info, is_task(task_id));
            }
        },
        MonitoringEventPayload::TaskFailed(task_id) => {
            lemma_first_index_is_first(jobs, owns_task(task_id));
            if let Some(i) = first_index(jobs, owns_task(task_id)) {
                lemma_first_index_is_first(jobs[i].1.job_tasks_info, is_task(task_id));
            }
        },
        _ => {},
    }
    assert forall|i: int| 0 <= i < after.len() implies distinct_tasks(
        #[trigger] after[i].1.job_tasks_info,
    ) by {
        if i < jobs.len() {
            assert(distinct_tasks(jobs[i].1.job_tasks_info));
        }
    }
}

/// A timeline holds every job once, and every started task of a job once: what is known of a
/// job or a task is found in one place, whatever events the timeline has taken note of.
pub proof fn lemma_apply_events_keeps_distinct(jobs: JobTimelineView, events: Seq<MonitoringEvent>)
    requires
        distinct_entries(jobs),
    ensures
        distinct_entries(apply_events(jobs, events)),
        distinct_entries(Seq::<(JobId, DashboardJobInfoView)>::empty()),
    decreases events.len(),
{
    if events.len() > 0 {
        lemma_apply_events_keeps_distinct(jobs, events.drop_last());
        lemma_apply_event_keeps_distinct(apply_events(jobs, events.drop_last()), events.last());
    }
}

/// The tasks among `tasks` that started on `worker_id` not later than `at_time`, in their
/// order.
pub open spec fn tasks_on_worker(
    tasks: Seq<(TakoTaskId, TaskInfo)>,
    worker_id: WorkerId,
    at_time: Timestamp,
) -> Seq<(TakoTaskId, TaskInfo)>
    decreases tasks.len(),
{
    if tasks.len() == 0 {
        Seq::empty()
    } else {
        let front = tasks_on_worker(tasks.drop_last(), worker_id, at_time);
        if tasks.last().1.worker_id == worker_id && tasks.last().1.start_time <= at_time {
            front.push(tasks.last())
        } else {
            front
        }
    }
}

/// The tasks of all `jobs` that started on `worker_id` not later than `at_time`: those of the
/// first job, then those of the second, and so on.
pub open spec fn worker_task_history(
    jobs: JobTimelineView,
    worker_id: WorkerId,
    at_time: Timestamp,
) -> Seq<(TakoTaskId, TaskInfo)>
    decreases jobs.len(),
{
    if jobs.len() == 0 {
        Seq::empty()
    } else {
        worker_task_history(jobs.drop_last(), worker_id, at_time) + tasks_on_worker(
            jobs.last().1.job_tasks_info,
            worker_id,
            at_time,
        )
    }
}

/// The place of `task_id` among `tasks`.
fn find_task(tasks: &Vec<(TakoTaskId, TaskInfo)>, task_id: TakoTaskId) -> (found: Option<usize>)
    ensures
        match first_index(tasks@, is_task(task_id)) {
            Some(i) => found matches Some(k) && k as int == i && 0 <= i < tasks@.len(),
            None => found is None,
        },
{
    let mut i: usize = 0;
    while i < tasks.len()
        invariant
            i <= tasks@.len(),
            forall|j: int| 0 <= j < i ==> !is_task(task_id)(#[trigger] tasks@[j]),
        decreases tasks@.len() - i,
    {
        if tasks[i].0 == task_id {
            proof {
                lemma_first_index_found(tasks@, is_task(task_id), i as int);
            }
            return Some(i);
        }
        i = i + 1;
    }
    proof {
        lemma_first_index_missing(tasks@, is_task(task_id));
    }
    None
}

/// Tracks the jobs and their tasks over time.
pub struct JobTimeline {
    job_timeline: Vec<(JobId, DashboardJobInfo)>,
}

impl View for JobTimeline {
    type V = JobTimelineView;

    closed spec fn view(&self) -> JobTimelineView {
        Seq::new(
            self.job_timeline@.len(),
            |i: int| (self.job_timeline@[i].0, self.job_timeline@[i].1@),
        )
    }
}

impl JobTimeline {
    /// A timeline that knows of no job.
    pub fn new() -> (timeline: Self)
        ensures
            timeline@ == Seq::<(JobId, DashboardJobInfoView)>::empty(),
            distinct_entries(timeline@),
    {
        let timeline = JobTimeline { job_timeline: Vec::new() };
        timeline
    }

    /// The place of `job_id` among the jobs.
    fn find_job(&self, job_id: JobId) -> (found: Option<usize>)
        ensures
            match first_index(self@, is_job(job_id)) {
                Some(i) => found matches Some(k) && k as int == i && 0 <= i
                    < self.job_timeline@.len(),
                None => found is None,
            },
    {
        let mut i: usize = 0;
        while i < self.job_timeline.len()
            invariant
                i <= self.job_timeline@.len(),
                self@.len() == self.job_timeline@.len(),
                forall|j: int| 0 <= j < i ==> !is_job(job_id)(#[trigger] self@[j]),
            decreases self.job_timeline@.len() - i,
        {
            if self.job_timeline[i].0 == job_id {
                proof {
                    lemma_first_index_found(self@, is_job(job_id), i as int);
                }
                return Some(i);
            }
            i = i + 1;
        }
        proof {
            lemma_first_index_missing(self@, is_job(job_id));
        }
        None
    }

    /// The place of the first job that has `task_id` among its tasks.
    fn find_owner(&self, task_id: TakoTaskId) -> (found: Option<usize>)
        ensures
            match first_index(self@, owns_task(task_id)) {
                Some(i) => found matches Some(k) && k as int == i && 0 <= i
                    < self.job_timeline@.len(),
                None => found is None,
            },
    {
        let mut i: usize = 0;
        while i < self.job_timeline.len()
            invariant
                i <= self.job_timeline@.len(),
                self@.len() == self.job_timeline@.len(),
                forall|j: int| 0 <= j < i ==> !owns_task(task_id)(#[trigger] self@[j]),
            decreases self.job_timeline@.len() - i,
        {
            if self.job_timeline[i].1.job_info.has_task(task_id) {
                proof {
                    lemma_first_index_found(self@, owns_task(task_id), i as int);
                }
                return Some(i);
            }
            i = i + 1;
        }
        proof {
            lemma_first_index_missing(self@, owns_task(task_id));
        }
        None
    }

    /// Takes note of one event.
    pub fn handle_event(&mut self, event: &MonitoringEvent)
        ensures
            final(self)@ == apply_event(old(self)@, *event),
            distinct_entries(old(self)@) ==> distinct_entries(final(self)@),
    {
        match &event.payload {
            MonitoringEventPayload::JobCreated(job_id, job_info) => {
                let created = DashboardJobInfo {
                    job_info: job_info.duplicate(),
                    job_tasks_info: Vec::new(),
                    completion_date: None,
                };
                match self.find_job(*job_id) {
                    Some(i) => {
                        self.job_timeline.set(i, (*job_id, created));
                    },
                    None => {
                        self.job_timeline.push((*job_id, created));
                    },
                }
            },
            MonitoringEventPayload::JobCompleted(job_id, completion_date) => {
                match self.find_job(*job_id) {
                    Some(i) => {
                        let (id, mut info) = self.job_timeline.remove(i);
                        info.completion_date = Some(*completion_date);
                        self.job_timeline.insert(i, (id, info));
                    },
                    None => {},
                }
            },
            MonitoringEventPayload::TaskStarted { task_id, worker_id } => {
                match self.find_owner(*task_id) {
                    Some(i) => {
                        let (id, mut info) = self.job_timeline.remove(i);
                        let started = TaskInfo::new(*worker_id, event.time);
                        match find_task(&info.job_tasks_info, *task_id) {
                            Some(k) => {
                                info.job_tasks_info.set(k, (*task_id, started));
                            },
                            None => {
                                info.job_tasks_info.push((*task_id, started));
                            },
                        }
                        self.job_timeline.insert(i, (id, info));
                    },
                    None => {},
                }
            },
            MonitoringEventPayload::TaskFinished(finished_id) => {
                self.update_task_status(finished_id, DashboardTaskState::Finished, &event.time);
            },
            MonitoringEventPayload::TaskFailed(failed_id) => {
                self.update_task_status(failed_id, DashboardTaskState::Failed, &event.time);
            },
            _ => {},
        }
        proof {
            assert(self@ == apply_event(old(self)@, *event));
            if distinct_entries(old(self)@) {
                lemma_apply_event_keeps_distinct(old(self)@, *event);
            }
        }
    }

    /// Records that `task_id` has ended at `at_time` as `task_status`.
    fn update_task_status(
        &mut self,
        task_id: &TakoTaskId,
        task_status: DashboardTaskState,
        at_time: &Timestamp,
    )
        ensures
            final(self)@ == task_ended(old(self)@, *task_id, task_status, *at_time),
    {
        match self.find_owner(*task_id) {
            Some(i) => {
                let (id, mut info) = self.job_timeline.remove(i);
                match find_task(&info.job_tasks_info, *task_id) {
                    Some(k) => {
                        let entry = info.job_tasks_info[k];
                        let mut task_info = entry.1;
                        task_info.set_end_time_and_status(at_time, task_status);
                        info.job_tasks_info.set(k, (entry.0, task_info));
                    },
                    None => {},
                }
                self.job_timeline.insert(i, (id, info));
            },
            None => {},
        }
    }

    /// Takes note of `events`, one after the other. The events are expected in the order of
    /// their times.
    pub fn handle_new_events(&mut self, events: &[MonitoringEvent])
        ensures
            final(self)@ == apply_events(old(self)@, events@),
            distinct_entries(old(self)@) ==> distinct_entries(final(self)@),
    {
        proof {
            if distinct_entries(old(self)@) {
                lemma_apply_events_keeps_distinct(old(self)@, events@);
            }
        }
        let mut k: usize = 0;
        while k < events.len()
            invariant
                k <= events@.len(),
                self@ == apply_events(old(self)@, events@.take(k as int)),
            decreases events@.len() - k,
        {
            assert(events@.take(k + 1).drop_last() =~= events@.take(k as int));
            self.handle_event(&events[k]);
            k = k + 1;
        }
        assert(events@.take(k as int) =~= events@);
    }

    /// The tasks that started on `worker_id` not later than `at_time`, job by job.
    pub fn get_worker_task_history(&self, worker_id: WorkerId, at_time: Timestamp) -> (history: Vec<
        (TakoTaskId, TaskInfo),
    >)
        ensures
            history@ == worker_task_history(self@, worker_id, at_time),
    {
        let mut history: Vec<(TakoTaskId, TaskInfo)> = Vec::new();
        let mut i: usize = 0;
        while i < self.job_timeline.len()
            invariant
                i <= self.job_timeline@.len(),
                self@.len() == self.job_timeline@.len(),
                history@ == worker_task_history(self@.take(i as int), worker_id, at_time),
            decreases self.job_timeline@.len() - i,
        {
            let tasks = &self.job_timeline[i].1.job_tasks_info;
            let ghost before = history@;
            let mut k: usize = 0;
            while k < tasks.len()
                invariant
                    k <= tasks@.len(),
                    history@ == before + tasks_on_worker(tasks@.take(k as int), worker_id, at_time),
                decreases tasks@.len() - k,
            {
                assert(tasks@.take(k + 1).drop_last() =~= tasks@.take(k as int));
                let entry = tasks[k];
                if entry.1.worker_id == worker_id && entry.1.start_time <= at_time {
                    history.push(entry);
                }
                k = k + 1;
            }
            assert(tasks@.take(k as int) =~= tasks@);
            assert(self@.take(i + 1).drop_last() =~= self@.take(i as int));
            i = i + 1;
        }
        assert(self@.take(i as int) =~= self@);
        history
    }

    /// The number of jobs that are known.
    pub fn len(&self) -> (n: usize)
        ensures
            n == self@.len(),
    {
        self.job_timeline.len()
    }

    /// The job at place `i`, in the order of creation.
    pub fn job_at(&self, i: usize) -> (job: (JobId, &DashboardJobInfo))
        requires
            i < self@.len(),
        ensures
            (job.0, job.1@) == self@[i as int],
    {
        let entry = &self.job_timeline[i];
        (entry.0, &entry.1)
    }

    /// What is known of `job_id`, if the job is known.
    pub fn get_job(&self, job_id: JobId) -> (info: Option<&DashboardJobInfo>)
        ensures
            match first_index(self@, is_job(job_id)) {
                Some(i) => info matches Some(found) && found@ == self@[i].1,
                None => info is None,
            },
    {
        match self.find_job(job_id) {
            Some(i) => Some(&self.job_timeline[i].1),
            None => None,
        }
    }
}

impl Default for JobTimeline {
    fn default() -> (timeline: Self)
        ensures
            timeline@ == Seq::<(JobId, DashboardJobInfoView)>::empty(),
    {
        JobTimeline::new()
    }
}

} // verus!
