use hyperqueue::dashboard::data::job_timeline::{
    DashboardJobInfo, DashboardTaskState, JobTimeline, TaskInfo,
};
use hyperqueue::dashboard::data::DashboardData;
use hyperqueue::dashboard::ui::screen::{Key, ScreenController, ScreenKind};
use hyperqueue::dashboard::ui::screens::job::screen::{FocusedComponent, JobScreen};
use hyperqueue::server::event::events::{JobInfo, MonitoringEventPayload};
use hyperqueue::server::event::MonitoringEvent;
use std::path::PathBuf;

fn job_info(name: &str, task_ids: &[u64]) -> JobInfo {
    JobInfo {
        name: name.to_string(),
        task_ids: task_ids.to_vec(),
        max_fails: None,
        log: Some(PathBuf::from("/tmp/log")),
        submission_date: 1,
        completion_date: None,
    }
}

fn event(id: u32, time: u64, payload: MonitoringEventPayload) -> MonitoringEvent {
    MonitoringEvent { id, time, payload }
}

fn created(id: u32, time: u64, job: u32, name: &str, tasks: &[u64]) -> MonitoringEvent {
    event(id, time, MonitoringEventPayload::JobCreated(job, Box::new(job_info(name, tasks))))
}

fn started(id: u32, time: u64, task_id: u64, worker_id: u32) -> MonitoringEvent {
    event(id, time, MonitoringEventPayload::TaskStarted { task_id, worker_id })
}

fn ended(task: TaskInfo, time: u64, state: DashboardTaskState) -> TaskInfo {
    let mut task = task;
    task.set_end_time_and_status(&time, state);
    task
}

#[test]
fn task_runs_until_it_ends() {
    let mut task = TaskInfo::new(3, 100);
    assert_eq!(task.worker_id, 3);
    assert_eq!(task.start_time, 100);
    assert_eq!(task.end_time, None);
    assert_eq!(task.get_task_state_at(100), DashboardTaskState::Running);
    assert_eq!(task.get_task_state_at(u64::MAX), DashboardTaskState::Running);
    task.set_end_time_and_status(&150, DashboardTaskState::Failed);
    assert_eq!(task.end_time, Some(150));
    assert_eq!(task.task_end_state, Some(DashboardTaskState::Failed));
    assert_eq!(task.worker_id, 3);
    assert_eq!(task.start_time, 100);
    assert_eq!(task.get_task_state_at(100), DashboardTaskState::Running);
    assert_eq!(task.get_task_state_at(149), DashboardTaskState::Running);
    assert_eq!(task.get_task_state_at(150), DashboardTaskState::Failed);
    assert_eq!(task.get_task_state_at(151), DashboardTaskState::Failed);
    task.set_end_time_and_status(&120, DashboardTaskState::Finished);
    assert_eq!(task.get_task_state_at(119), DashboardTaskState::Running);
    assert_eq!(task.get_task_state_at(120), DashboardTaskState::Finished);
}

#[test]
fn timeline_follows_the_events() {
    let mut timeline = JobTimeline::new();
    assert_eq!(timeline.len(), 0);
    timeline.handle_new_events(&[
        created(0, 10, 1, "first", &[100, 101]),
        created(1, 11, 2, "second", &[200]),
        started(2, 12, 101, 7),
        started(3, 13, 200, 8),
        started(4, 14, 999, 8),
        started(5, 15, 100, 7),
        event(6, 16, MonitoringEventPayload::TaskFinished(101)),
        event(7, 17, MonitoringEventPayload::TaskFailed(200)),
        event(8, 18, MonitoringEventPayload::TaskFinished(999)),
        event(9, 19, MonitoringEventPayload::JobCompleted(2, 19)),
        event(10, 20, MonitoringEventPayload::JobCompleted(3, 20)),
        event(11, 21, MonitoringEventPayload::WorkerLost(7)),
    ]);
    assert_eq!(timeline.len(), 2);
    assert_eq!(
        timeline.get_job(1),
        Some(&DashboardJobInfo {
            job_info: job_info("first", &[100, 101]),
            job_tasks_info: vec![
                (101, ended(TaskInfo::new(7, 12), 16, DashboardTaskState::Finished)),
                (100, TaskInfo::new(7, 15)),
            ],
            completion_date: None,
        })
    );
    assert_eq!(
        timeline.get_job(2),
        Some(&DashboardJobInfo {
            job_info: job_info("second", &[200]),
            job_tasks_info: vec![(200, ended(TaskInfo::new(8, 13), 17, DashboardTaskState::Failed))],
            completion_date: Some(19),
        })
    );
    assert_eq!(timeline.get_job(3), None);
    assert_eq!(timeline.job_at(0).0, 1);
    assert_eq!(timeline.job_at(1).0, 2);
}

#[test]
fn task_that_ends_before_it_starts_leaves_no_trace() {
    let mut timeline = JobTimeline::default();
    timeline.handle_new_events(&[
        created(0, 10, 1, "first", &[100]),
        event(1, 11, MonitoringEventPayload::TaskFinished(100)),
    ]);
    assert_eq!(timeline.get_job(1).unwrap().job_tasks_info, vec![]);
}

#[test]
fn created_again_a_job_starts_anew_in_its_place() {
    let mut timeline = JobTimeline::new();
    timeline.handle_new_events(&[
        created(0, 10, 1, "first", &[100]),
        created(1, 11, 2, "second", &[200]),
        started(2, 12, 100, 7),
        event(3, 13, MonitoringEventPayload::JobCompleted(1, 13)),
        created(4, 14, 1, "first again", &[100, 300]),
    ]);
    assert_eq!(timeline.len(), 2);
    assert_eq!(timeline.job_at(0).0, 1);
    assert_eq!(
        timeline.get_job(1),
        Some(&DashboardJobInfo {
            job_info: job_info("first again", &[100, 300]),
            job_tasks_info: vec![],
            completion_date: None,
        })
    );
}

#[test]
fn restarted_task_keeps_its_place() {
    let mut timeline = JobTimeline::new();
    timeline.handle_new_events(&[
        created(0, 10, 1, "first", &[100, 101]),
        started(1, 11, 100, 7),
        started(2, 12, 101, 7),
        event(3, 13, MonitoringEventPayload::TaskFailed(100)),
        started(4, 14, 100, 9),
    ]);
    assert_eq!(
        timeline.get_job(1).unwrap().job_tasks_info,
        vec![(100, TaskInfo::new(9, 14)), (101, TaskInfo::new(7, 12))]
    );
}

#[test]
fn first_job_with_the_task_takes_it() {
    let mut timeline = JobTimeline::new();
    timeline.handle_new_events(&[
        created(0, 10, 1, "first", &[100]),
        created(1, 11, 2, "second", &[100]),
        started(2, 12, 100, 7),
    ]);
    assert_eq!(timeline.get_job(1).unwrap().job_tasks_info.len(), 1);
    assert_eq!(timeline.get_job(2).unwrap().job_tasks_info.len(), 0);
}

#[test]
fn history_of_a_worker() {
    let mut timeline = JobTimeline::new();
    timeline.handle_new_events(&[
        created(0, 10, 1, "first", &[100, 101, 102]),
        created(1, 11, 2, "second", &[200, 201]),
        started(2, 12, 200, 7),
        started(3, 13, 100, 7),
        started(4, 14, 101, 8),
        started(5, 15, 102, 7),
        started(6, 16, 201, 7),
    ]);
    assert_eq!(
        timeline.get_worker_task_history(7, 15),
        vec![(100, TaskInfo::new(7, 13)), (102, TaskInfo::new(7, 15)), (200, TaskInfo::new(7, 12))]
    );
    assert_eq!(timeline.get_worker_task_history(7, 12), vec![(200, TaskInfo::new(7, 12))]);
    assert_eq!(timeline.get_worker_task_history(7, 11), vec![]);
    assert_eq!(timeline.get_worker_task_history(8, 100), vec![(101, TaskInfo::new(8, 14))]);
    assert_eq!(timeline.get_worker_task_history(9, 100), vec![]);
}

#[test]
fn dashboard_data_takes_events_in_the_order_of_their_times() {
    let mut data = DashboardData::new();
    assert_eq!(data.last_fetched_id(), None);
    data.update_data(vec![]);
    assert_eq!(data.last_fetched_id(), None);
    data.update_data(vec![
        event(7, 30, MonitoringEventPayload::TaskFinished(100)),
        started(5, 20, 100, 4),
        created(3, 10, 1, "first", &[100]),
    ]);
    assert_eq!(data.last_fetched_id(), Some(7));
    assert_eq!(
        data.tasks_timeline().get_job(1).unwrap().job_tasks_info,
        vec![(100, ended(TaskInfo::new(4, 20), 30, DashboardTaskState::Finished))]
    );
    assert_eq!(
        data.query_task_history_for_worker(4, 25),
        vec![(100, ended(TaskInfo::new(4, 20), 30, DashboardTaskState::Finished))]
    );
    assert_eq!(data.query_task_history_for_worker(4, 19), vec![]);
    // a batch of older events is taken in, and leaves the cursor where it was
    data.update_data(vec![event(2, 40, MonitoringEventPayload::WorkerConnected(1))]);
    assert_eq!(data.last_fetched_id(), Some(7));
    data.update_data(vec![]);
    assert_eq!(data.last_fetched_id(), Some(7));
    assert_eq!(DashboardData::default().last_fetched_id(), None);
}

#[test]
fn cursor_never_moves_backwards() {
    let mut data = DashboardData::new();
    let mut cursor = data.last_fetched_id();
    let batches: Vec<Vec<u32>> = vec![
        vec![],
        vec![10],
        vec![3],
        vec![],
        vec![4, 12, 11],
        vec![12],
        vec![0, 1, 2],
        vec![u32::MAX, 5],
        vec![13],
    ];
    let expected = [None, Some(10), Some(10), Some(10), Some(12), Some(12), Some(12),
        Some(u32::MAX), Some(u32::MAX)];
    for (ids, expected) in batches.into_iter().zip(expected) {
        let events =
            ids.iter().map(|id| event(*id, 50, MonitoringEventPayload::WorkerLost(1))).collect();
        data.update_data(events);
        let next = data.last_fetched_id();
        assert_eq!(next, expected);
        assert!(next >= cursor);
        cursor = next;
    }
}

#[test]
fn stale_batch_still_reaches_the_timeline() {
    let mut data = DashboardData::new();
    data.update_data(vec![created(9, 10, 1, "first", &[100])]);
    data.update_data(vec![started(4, 20, 100, 2)]);
    assert_eq!(data.last_fetched_id(), Some(9));
    assert_eq!(
        data.tasks_timeline().get_job(1).unwrap().job_tasks_info,
        vec![(100, TaskInfo::new(2, 20))]
    );
}

#[test]
fn event_accessors() {
    let e = started(5, 20, 100, 4);
    assert_eq!(e.id(), 5);
    assert_eq!(e.time(), 20);
    let info = job_info("x", &[1, 2, 3]);
    assert_eq!(info.duplicate(), info);
    assert!(info.has_task(2));
    assert!(!info.has_task(4));
}

#[test]
fn job_screen_shows_jobs_and_their_tasks() {
    let mut data = DashboardData::new();
    data.update_data(vec![
        created(0, 10, 1, "first", &[100, 101]),
        created(1, 11, 2, "second", &[200]),
        started(2, 12, 100, 7),
        started(3, 13, 101, 7),
        started(4, 14, 200, 8),
    ]);
    let mut screen = JobScreen::new();
    let mut controller = ScreenController::new();
    assert_eq!(screen.focus(), FocusedComponent::JobInfoTable);
    screen.update(&data);
    assert_eq!(
        screen.job_info_table().items().iter().map(|r| (r.id, r.name.as_str())).collect::<Vec<_>>(),
        vec![(1, "first"), (2, "second")]
    );
    assert_eq!(screen.selected_job(), None);
    assert!(screen.job_tasks_table().items().is_empty());
    screen.handle_key(Key::Down, &mut controller);
    assert_eq!(screen.selected_job(), Some(1));
    screen.update(&data);
    assert_eq!(
        screen.job_tasks_table().items(),
        &vec![(100, TaskInfo::new(7, 12)), (101, TaskInfo::new(7, 13))]
    );
    // focus on the tasks: the keys move the selection there
    screen.handle_key(Key::Char('2'), &mut controller);
    assert_eq!(screen.focus(), FocusedComponent::JobTasksTable);
    screen.handle_key(Key::Up, &mut controller);
    assert_eq!(screen.job_tasks_table().selected_index(), Some(0));
    screen.handle_key(Key::Up, &mut controller);
    assert_eq!(screen.job_tasks_table().selected_index(), Some(1));
    assert_eq!(screen.selected_job(), Some(1));
    // back to the jobs: the selection of the tasks is cleared
    screen.handle_key(Key::Char('1'), &mut controller);
    assert_eq!(screen.focus(), FocusedComponent::JobInfoTable);
    assert_eq!(screen.job_tasks_table().selected_index(), None);
    screen.handle_key(Key::Down, &mut controller);
    assert_eq!(screen.selected_job(), Some(2));
    assert_eq!(controller.requested, None);
    screen.handle_key(Key::Right, &mut controller);
    assert_eq!(controller.requested, Some(ScreenKind::AutoAllocator));
    assert_eq!(FocusedComponent::default(), FocusedComponent::JobInfoTable);
    assert_eq!(JobScreen::default().focus(), FocusedComponent::JobInfoTable);
}
