//! The table of the jobs that have tasks on one worker.
use crate::dashboard::ui::widgets::table::{StatefulTable, TableView};
use crate::text::{decimal, push_decimal};
use crate::transfer::messages::JobDetail;
use crate::{JobId, JobTaskCount, Timestamp, WorkerId};
use vstd::prelude::*;
use vstd::string::*;

verus! {

/// One row of the table: one job.
#[derive(Debug, Clone, PartialEq, Eq)]
pub struct WorkerJobRow {
    pub id: JobId,
    /// The name of the job.
    pub info: String,
    /// The number of tasks of the job that have finished.
    pub finished_tasks: JobTaskCount,
    /// The number of tasks of the job that run or have come to an end.
    pub counted_tasks: u64,
    /// The failed tasks among the counted ones, as shown: `failed/counted`.
    pub failed_tasks: String,
    pub max_fails: Option<JobTaskCount>,
    pub priority: i32,
    pub time_limit: Option<u64>,
    pub submission_date: Timestamp,
}

/// The failed tasks of a job among the counted ones, as shown: the two numbers in decimal, with
/// a stroke between them.
pub open spec fn task_failure_count(detail: JobDetail) -> Seq<char> {
    decimal(detail.info.counters.n_failed_tasks as nat) + seq!['/'] + decimal(
        detail.info.counters.spec_n_counted_tasks() as nat,
    )
}

/// Whether `row` shows `detail`.
pub open spec fn shows(row: WorkerJobRow, detail: JobDetail) -> bool {
    &&& row.id == detail.info.id
    &&& row.info@ == detail.info.name@
    &&& row.finished_tasks == detail.info.counters.n_finished_tasks
    &&& row.counted_tasks == detail.info.counters.spec_n_counted_tasks()
    &&& row.failed_tasks@ == task_failure_count(detail)
    &&& row.max_fails == detail.max_fails
    &&& row.priority == detail.priority
    &&& row.time_limit == detail.time_limit
    &&& row.submission_date == detail.submission_date
}

/// The jobs of `worker` among `details`, in their order.
pub open spec fn jobs_of_worker(details: Seq<(WorkerId, JobDetail)>, worker: WorkerId) -> Seq<
    JobDetail,
>
    decreases details.len(),
{
    if details.len() == 0 {
        Seq::empty()
    } else {
        let front = jobs_of_worker(details.drop_last(), worker);
        if details.last().0 == worker {
            front.push(details.last().1)
        } else {
            front
        }
    }
}

/// Whether `rows` shows `details`, row by row.
pub open spec fn show_all(rows: Seq<WorkerJobRow>, details: Seq<JobDetail>) -> bool {
    &&& rows.len() == details.len()
    &&& forall|i: int| 0 <= i < rows.len() ==> shows(#[trigger] rows[i], details[i])
}

/// The failed tasks of a job among the counted ones, as shown.
pub fn create_task_failure_count(detail: &JobDetail) -> (text: String)
    ensures
        text@ == task_failure_count(*detail),
{
    let mut text = String::new();
    push_decimal(&mut text, detail.info.counters.n_failed_tasks as u64);
    proof {
        reveal_strlit("/");
    }
    text.append("/");
    push_decimal(&mut text, detail.info.counters.n_counted_tasks());
    text
}

/// The rows that show the jobs of `for_worker` among `detail`, in their order.
pub fn create_rows(detail: &Vec<(WorkerId, JobDetail)>, for_worker: WorkerId) -> (rows: Vec<
    WorkerJobRow,
>)
    ensures
        show_all(rows@, jobs_of_worker(detail@, for_worker)),
{
    let mut rows: Vec<WorkerJobRow> = Vec::new();
    let mut i: usize = 0;
    while i < detail.len()
        invariant
            i <= detail@.len(),
            show_all(rows@, jobs_of_worker(detail@.take(i as int), for_worker)),
        decreases detail@.len() - i,
    {
        let entry = &detail[i];
        proof {
            assert(detail@.take(i + 1).drop_last() =~= detail@.take(i as int));
        }
        if entry.0 == for_worker {
            let job = &entry.1;
            let row = WorkerJobRow {
                id: job.info.id,
                info: job.info.name.clone(),
                finished_tasks: job.info.counters.n_finished_tasks,
                counted_tasks: job.info.counters.n_counted_tasks(),
                failed_tasks: create_task_failure_count(job),
                max_fails: job.max_fails,
                priority: job.priority,
                time_limit: job.time_limit,
                submission_date: job.submission_date,
            };
            rows.push(row);
        }
        i = i + 1;
    }
    assert(detail@.take(i as int) =~= detail@);
    rows
}

/// The table of the jobs that have tasks on one worker.
pub struct WorkerJobsTable {
    table: StatefulTable<WorkerJobRow>,
    state: Vec<(WorkerId, JobDetail)>,
    current_worker: WorkerId,
}

/// The table as a mathematical value.
pub struct WorkerJobsView {
    /// The rows and the selection.
    pub table: TableView<WorkerJobRow>,
    /// The jobs that the table was last told of, each with a worker that has tasks of it.
    pub state: Seq<(WorkerId, JobDetail)>,
    /// The worker whose jobs the rows show.
    pub current_worker: WorkerId,
}

impl View for WorkerJobsTable {
    type V = WorkerJobsView;

    closed spec fn view(&self) -> WorkerJobsView {
        WorkerJobsView {
            table: self.table@,
            state: self.state@,
            current_worker: self.current_worker,
        }
    }
}

impl WorkerJobsTable {
    /// A selection, if there is one, points at a row.
    pub open spec fn wf(&self) -> bool {
        self@.table.wf()
    }

    /// A table without rows, which knows of no job and shows worker 0.
    pub fn new() -> (table: Self)
        ensures
            table.wf(),
            table@.table.items == Seq::<WorkerJobRow>::empty(),
            table@.table.selected == None::<usize>,
            table@.state == Seq::<(WorkerId, JobDetail)>::empty(),
            table@.current_worker == 0,
    {
        WorkerJobsTable { table: StatefulTable::new(), state: Vec::new(), current_worker: 0 }
    }

    /// Tells the table of the jobs that there are. The rows change when another worker is
    /// shown.
    pub fn update(&mut self, job_detail: Vec<(WorkerId, JobDetail)>)
        ensures
            final(self)@.state == job_detail@,
            final(self)@.table == old(self)@.table,
            final(self)@.current_worker == old(self)@.current_worker,
    {
        self.state = job_detail;
    }

    /// Shows the jobs of `worker_id`, if that is a worker other than the one shown: the rows
    /// are those of its jobs among the jobs that the table knows of, and nothing is selected.
    /// Without a worker, and for the worker shown, nothing changes.
    pub fn update_current_worker(&mut self, worker_id: Option<WorkerId>)
        requires
            old(self).wf(),
        ensures
            final(self).wf(),
            final(self)@.state == old(self)@.state,
            match worker_id {
                Some(worker) if worker != old(self)@.current_worker => {
                    &&& final(self)@.current_worker == worker
                    &&& final(self)@.table.selected == None::<usize>
                    &&& show_all(
                        final(self)@.table.items,
                        jobs_of_worker(old(self)@.state, worker),
                    )
                },
                _ => final(self)@ == old(self)@,
            },
    {
        if let Some(worker_id) = worker_id {
            if self.current_worker != worker_id {
                self.current_worker = worker_id;
                let rows = create_rows(&self.state, worker_id);
                self.table.set_items(rows);
                self.table.clear_selection();
            }
        }
    }

    /// Moves the selection one row down, from the last row to the first.
    pub fn select_next_job(&mut self)
        requires
            old(self).wf(),
        ensures
            final(self).wf(),
            final(self)@.state == old(self)@.state,
            final(self)@.current_worker == old(self)@.current_worker,
            final(self)@.table.items == old(self)@.table.items,
            final(self)@.table.selected == old(self)@.table.next_selection(),
    {
        self.table.select_next_wrap();
    }

    /// Moves the selection one row up, from the first row to the last.
    pub fn select_previous_job(&mut self)
        requires
            old(self).wf(),
        ensures
            final(self).wf(),
            final(self)@.state == old(self)@.state,
            final(self)@.current_worker == old(self)@.current_worker,
            final(self)@.table.items == old(self)@.table.items,
            final(self)@.table.selected == old(self)@.table.previous_selection(),
    {
        self.table.select_previous_wrap();
    }

    /// The job of the selected row, if a row is selected.
    pub fn get_selected_item(&self) -> (id: Option<JobId>)
        requires
            self.wf(),
        ensures
            id == match self@.table.selected {
                Some(i) => Some(self@.table.items[i as int].id),
                None => None,
            },
    {
        match self.table.current_selection() {
            Some(row) => Some(row.id),
            None => None,
        }
    }

    /// The place of the selected row, if a row is selected.
    pub fn selected_index(&self) -> (index: Option<usize>)
        ensures
            index == self@.table.selected,
    {
        self.table.selected_index()
    }

    /// The worker whose jobs the rows show.
    pub fn current_worker(&self) -> (worker: WorkerId)
        ensures
            worker == self@.current_worker,
    {
        self.current_worker
    }

    /// The rows.
    pub fn rows(&self) -> (rows: &Vec<WorkerJobRow>)
        ensures
            rows@ == self@.table.items,
    {
        self.table.items()
    }
}

impl Default for WorkerJobsTable {
    fn default() -> (table: Self)
        ensures
            table.wf(),
            table@.table.items == Seq::<WorkerJobRow>::empty(),
            table@.table.selected == None::<usize>,
            table@.state == Seq::<(WorkerId, JobDetail)>::empty(),
            table@.current_worker == 0,
    {
        WorkerJobsTable::new()
    }
}

} // verus!
