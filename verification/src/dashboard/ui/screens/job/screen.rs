//! The screen of the jobs.
use crate::dashboard::data::job_timeline::{JobTimelineView, TaskInfo};
use crate::dashboard::data::DashboardData;
use crate::dashboard::ui::screen::{Key, ScreenController, ScreenKind};
use crate::dashboard::ui::widgets::table::{StatefulTable, TableView};
use crate::{JobId, TakoTaskId};
use vstd::prelude::*;
use vstd::slice::slice_to_vec;

verus! {

/// The part of the screen that reacts to the keys that move a selection.
#[derive(Debug, Clone, Copy, PartialEq, Eq, Structural)]
pub enum FocusedComponent {
    JobInfoTable,
    JobTasksTable,
}

/// One row of the table of jobs.
#[derive(Debug, Clone, PartialEq, Eq)]
pub struct JobInfoRow {
    pub id: JobId,
    pub name: String,
}

/// The screen of the jobs: the table of the jobs, and the table of the started tasks of the
/// job that is selected.
pub struct JobScreen {
    job_info_table: StatefulTable<JobInfoRow>,
    job_tasks_table: StatefulTable<(TakoTaskId, TaskInfo)>,
    component_in_focus: FocusedComponent,
}

/// The screen as a mathematical value.
pub struct JobScreenView {
    pub jobs: TableView<JobInfoRow>,
    pub tasks: TableView<(TakoTaskId, TaskInfo)>,
    pub focus: FocusedComponent,
}

impl View for JobScreen {
    type V = JobScreenView;

    closed spec fn view(&self) -> JobScreenView {
        JobScreenView {
            jobs: self.job_info_table@,
            tasks: self.job_tasks_table@,
            focus: self.component_in_focus,
        }
    }
}

/// Whether `rows` shows the jobs of `timeline`, one row for each job, in their order.
pub open spec fn shows_jobs(rows: Seq<JobInfoRow>, timeline: JobTimelineView) -> bool {
    &&& rows.len() == timeline.len()
    &&& forall|i: int|
        0 <= i < rows.len() ==> (#[trigger] rows[i]).id == timeline[i].0 && rows[i].name@
            == timeline[i].1.job_info.name
}

/// The selection of `table` after `key`: down moves it to the next row, up to the row before,
/// and no other key moves it.
pub open spec fn moved_selection<T>(table: TableView<T>, key: Key) -> Option<usize> {
    match key {
        Key::Down => table.next_selection(),
        Key::Up => table.previous_selection(),
        _ => table.selected,
    }
}

impl JobScreen {
    /// In both tables a selection, if there is one, points at a row.
    pub open spec fn wf(&self) -> bool {
        self@.jobs.wf() && self@.tasks.wf()
    }

    /// A screen with empty tables, on which the table of jobs has the focus.
    pub fn new() -> (screen: Self)
        ensures
            screen.wf(),
            screen@.jobs.items == Seq::<JobInfoRow>::empty(),
            screen@.jobs.selected == None::<usize>,
            screen@.tasks.items == Seq::<(TakoTaskId, TaskInfo)>::empty(),
            screen@.tasks.selected == None::<usize>,
            screen@.focus == FocusedComponent::JobInfoTable,
    {
        JobScreen {
            job_info_table: StatefulTable::new(),
            job_tasks_table: StatefulTable::new(),
            component_in_focus: FocusedComponent::JobInfoTable,
        }
    }

    /// Shows the jobs that `data` knows of. If one of them is selected afterwards, the table of
    /// tasks shows its started tasks; otherwise that table stays as it is.
    pub fn update(&mut self, data: &DashboardData)
        requires
            old(self).wf(),
        ensures
            final(self).wf(),
            final(self)@.focus == old(self)@.focus,
            shows_jobs(final(self)@.jobs.items, data@.tasks_timeline),
            final(self)@.jobs.selected == old(self)@.jobs.selection_for(
                data@.tasks_timeline.len(),
            ),
            match final(self)@.jobs.selected {
                Some(i) => {
                    &&& final(self)@.tasks.items == data@.tasks_timeline[i as int].1.job_tasks_info
                    &&& final(self)@.tasks.selected == old(self)@.tasks.selection_for(
                        data@.tasks_timeline[i as int].1.job_tasks_info.len(),
                    )
                },
                None => final(self)@.tasks == old(self)@.tasks,
            },
    {
        let timeline = data.tasks_timeline();
        let mut rows: Vec<JobInfoRow> = Vec::new();
        let mut i: usize = 0;
        while i < timeline.len()
            invariant
                i <= timeline@.len(),
                rows@.len() == i,
                forall|j: int|
                    0 <= j < i ==> (#[trigger] rows@[j]).id == timeline@[j].0 && rows@[j].name@
                        == timeline@[j].1.job_info.name,
            decreases timeline@.len() - i,
        {
            let (id, info) = timeline.job_at(i);
            rows.push(JobInfoRow { id, name: info.job_info.name.clone() });
            i = i + 1;
        }
        self.job_info_table.set_items(rows);
        if let Some(selected) = self.job_info_table.selected_index() {
            let (_, info) = timeline.job_at(selected);
            self.job_tasks_table.set_items(slice_to_vec(info.job_tasks_info.as_slice()));
        }
    }

    /// Reacts to a key. Down and up move the selection in the table that has the focus. Then
    /// right asks for the screen of the automatic allocator, `1` gives the focus to the table
    /// of jobs and clears the selection in the table of tasks, and `2` gives the focus to the
    /// table of tasks.
    pub fn handle_key(&mut self, key: Key, controller: &mut ScreenController)
        requires
            old(self).wf(),
        ensures
            final(self).wf(),
            final(self)@.jobs.items == old(self)@.jobs.items,
            final(self)@.tasks.items == old(self)@.tasks.items,
            final(self)@.jobs.selected == if old(self)@.focus is JobInfoTable {
                moved_selection(old(self)@.jobs, key)
            } else {
                old(self)@.jobs.selected
            },
            final(self)@.tasks.selected == if key == Key::Char('1') {
                None
            } else if old(self)@.focus is JobTasksTable {
                moved_selection(old(self)@.tasks, key)
            } else {
                old(self)@.tasks.selected
            },
            final(self)@.focus == if key == Key::Char('1') {
                FocusedComponent::JobInfoTable
            } else if key == Key::Char('2') {
                FocusedComponent::JobTasksTable
            } else {
                old(self)@.focus
            },
            final(controller).requested == if key == Key::Right {
                Some(ScreenKind::AutoAllocator)
            } else {
                old(controller).requested
            },
    {
        match self.component_in_focus {
            FocusedComponent::JobInfoTable => match key {
                Key::Down => self.job_info_table.select_next_wrap(),
                Key::Up => self.job_info_table.select_previous_wrap(),
                _ => {},
            },
            FocusedComponent::JobTasksTable => match key {
                Key::Down => self.job_tasks_table.select_next_wrap(),
                Key::Up => self.job_tasks_table.select_previous_wrap(),
                _ => {},
            },
        }
        match key {
            Key::Right => controller.show_auto_allocator_screen(),
            Key::Char(c) => {
                if c == '1' {
                    self.component_in_focus = FocusedComponent::JobInfoTable;
                    self.job_tasks_table.clear_selection();
                } else if c == '2' {
                    self.component_in_focus = FocusedComponent::JobTasksTable;
                }
            },
            _ => {},
        }
    }

    /// The job that is selected, if one is.
    pub fn selected_job(&self) -> (id: Option<JobId>)
        requires
            self.wf(),
        ensures
            id == match self@.jobs.selected {
                Some(i) => Some(self@.jobs.items[i as int].id),
                None => None,
            },
    {
        match self.job_info_table.current_selection() {
            Some(row) => Some(row.id),
            None => None,
        }
    }

    /// The part of the screen that has the focus.
    pub fn focus(&self) -> (focus: FocusedComponent)
        ensures
            focus == self@.focus,
    {
        self.component_in_focus
    }

    /// The table of the jobs.
    pub fn job_info_table(&self) -> (table: &StatefulTable<JobInfoRow>)
        ensures
            table@ == self@.jobs,
    {
        &self.job_info_table
    }

    /// The table of the started tasks of the selected job.
    pub fn job_tasks_table(&self) -> (table: &StatefulTable<(TakoTaskId, TaskInfo)>)
        ensures
            table@ == self@.tasks,
    {
        &self.job_tasks_table
    }
}

impl Default for JobScreen {
    fn default() -> (screen: Self)
        ensures
            screen.wf(),
            screen@.jobs.items == Seq::<JobInfoRow>::empty(),
            screen@.jobs.selected == None::<usize>,
            screen@.tasks.items == Seq::<(TakoTaskId, TaskInfo)>::empty(),
            screen@.tasks.selected == None::<usize>,
            screen@.focus == FocusedComponent::JobInfoTable,
    {
        JobScreen::new()
    }
}

impl Default for FocusedComponent {
    fn default() -> (focus: Self)
        ensures
            focus == FocusedComponent::JobInfoTable,
    {
        FocusedComponent::JobInfoTable
    }
}

} // verus!
