use hyperqueue::dashboard::data::alloc_timeline::{
    get_alloc_state, AllocState, AllocationInfo, AllocationQueueInfo,
};
use hyperqueue::dashboard::ui::screen::{Key, ScreenController, ScreenKind};
use hyperqueue::dashboard::ui::screens::auto_allocator::allocations_info_table::{
    AllocationInfoRow, AllocationInfoTable,
};
use hyperqueue::dashboard::ui::screens::auto_allocator::queue_info_table::{
    AllocationQueueInfoTable, QueueInfoRow,
};
use hyperqueue::dashboard::ui::screens::auto_allocator::screen::AutoAllocatorScreen;
use hyperqueue::dashboard::ui::screens::home::worker_jobs_table::{
    create_rows, create_task_failure_count, WorkerJobRow, WorkerJobsTable,
};
use hyperqueue::dashboard::ui::widgets::table::StatefulTable;
use hyperqueue::transfer::messages::{JobDetail, JobInfo, JobTaskCounters};

fn allocation(worker_count: u64, queued: u64, start: Option<u64>, finish: Option<u64>) -> AllocationInfo {
    AllocationInfo { worker_count, queued_time: queued, start_time: start, finish_time: finish }
}

fn detail(id: u32, name: &str, running: u32, finished: u32, failed: u32, canceled: u32) -> JobDetail {
    JobDetail {
        info: JobInfo {
            id,
            name: name.to_string(),
            n_tasks: running + finished + failed + canceled,
            counters: JobTaskCounters {
                n_running_tasks: running,
                n_finished_tasks: finished,
                n_failed_tasks: failed,
                n_canceled_tasks: canceled,
            },
        },
        tasks: (0..4).collect(),
        max_fails: Some(2),
        priority: -1,
        time_limit: None,
        submission_date: 1000,
    }
}

#[test]
fn empty_table_selects_nothing() {
    let mut table: StatefulTable<u8> = StatefulTable::new();
    assert_eq!(table.selected_index(), None);
    table.select_next_wrap();
    assert_eq!(table.selected_index(), None);
    table.select_previous_wrap();
    assert_eq!(table.selected_index(), None);
    assert_eq!(table.current_selection(), None);
    assert!(table.items().is_empty());
}

#[test]
fn selection_walks_down_and_wraps() {
    let mut table = StatefulTable::new();
    table.set_items(vec!['a', 'b', 'c']);
    assert_eq!(table.selected_index(), None);
    table.select_next_wrap();
    assert_eq!(table.current_selection(), Some(&'a'));
    table.select_next_wrap();
    assert_eq!(table.current_selection(), Some(&'b'));
    table.select_next_wrap();
    assert_eq!(table.current_selection(), Some(&'c'));
    table.select_next_wrap();
    assert_eq!(table.selected_index(), Some(0));
}

#[test]
fn selection_walks_up_and_wraps() {
    let mut table = StatefulTable::new();
    table.set_items(vec!['a', 'b', 'c']);
    table.select_previous_wrap();
    assert_eq!(table.selected_index(), Some(0));
    table.select_previous_wrap();
    assert_eq!(table.current_selection(), Some(&'c'));
    table.select_previous_wrap();
    assert_eq!(table.selected_index(), Some(1));
    table.clear_selection();
    assert_eq!(table.selected_index(), None);
    assert_eq!(table.items(), &vec!['a', 'b', 'c']);
}

#[test]
fn selection_survives_new_rows_as_far_as_it_can() {
    let mut table = StatefulTable::new();
    table.set_items(vec![1, 2, 3, 4]);
    table.select_previous_wrap();
    table.select_previous_wrap();
    assert_eq!(table.selected_index(), Some(3));
    table.set_items(vec![10, 20, 30, 40, 50]);
    assert_eq!(table.current_selection(), Some(&40));
    table.set_items(vec![7, 8]);
    assert_eq!(table.selected_index(), Some(1));
    assert_eq!(table.current_selection(), Some(&8));
    table.set_items(vec![]);
    assert_eq!(table.selected_index(), None);
    table.set_items(vec![9]);
    assert_eq!(table.selected_index(), None);
}

#[test]
fn allocation_state_over_time() {
    let queued = allocation(1, 10, None, None);
    assert_eq!(get_alloc_state(&queued, 0), AllocState::Queued);
    assert_eq!(get_alloc_state(&queued, 1000), AllocState::Queued);
    let running = allocation(1, 10, Some(20), None);
    assert_eq!(get_alloc_state(&running, 20), AllocState::Queued);
    assert_eq!(get_alloc_state(&running, 21), AllocState::Running);
    let done = allocation(1, 10, Some(20), Some(30));
    assert_eq!(get_alloc_state(&done, 15), AllocState::Queued);
    assert_eq!(get_alloc_state(&done, 25), AllocState::Running);
    assert_eq!(get_alloc_state(&done, 30), AllocState::Running);
    assert_eq!(get_alloc_state(&done, 31), AllocState::Finished);
    let never_started = allocation(1, 10, None, Some(30));
    assert_eq!(get_alloc_state(&never_started, 29), AllocState::Queued);
    assert_eq!(get_alloc_state(&never_started, 31), AllocState::Finished);
}

#[test]
fn allocation_table_shows_allocations() {
    let mut table = AllocationInfoTable::new();
    assert_eq!(table.get_selected_allocation_id(), None);
    let allocations = vec![
        ("pbs-1".to_string(), allocation(4, 100, Some(110), None)),
        ("pbs-2".to_string(), allocation(8, 105, None, None)),
    ];
    table.update(&allocations);
    assert_eq!(
        table.rows(),
        &vec![
            AllocationInfoRow {
                allocation_id: "pbs-1".to_string(),
                num_workers: 4,
                queued_time: 100,
                start_time: Some(110),
                finish_time: None,
            },
            AllocationInfoRow {
                allocation_id: "pbs-2".to_string(),
                num_workers: 8,
                queued_time: 105,
                start_time: None,
                finish_time: None,
            },
        ]
    );
    assert_eq!(table.get_selected_allocation_id(), None);
    table.select_next_allocation();
    assert_eq!(table.get_selected_allocation_id(), Some(&"pbs-1".to_string()));
    table.select_next_allocation();
    assert_eq!(table.get_selected_allocation_id(), Some(&"pbs-2".to_string()));
    table.select_next_allocation();
    assert_eq!(table.get_selected_allocation_id(), Some(&"pbs-1".to_string()));
    table.select_previous_allocation();
    assert_eq!(table.get_selected_allocation_id(), Some(&"pbs-2".to_string()));
    table.update(&allocations[..1]);
    assert_eq!(table.get_selected_allocation_id(), Some(&"pbs-1".to_string()));
    table.clear_selection();
    assert_eq!(table.get_selected_allocation_id(), None);
    assert_eq!(AllocationInfoTable::default().rows().len(), 0);
}

#[test]
fn queue_table_shows_queues() {
    let first = AllocationQueueInfo {
        creation_time: 5,
        removal_time: None,
        allocations: vec![("a".to_string(), allocation(1, 6, None, None))],
    };
    let second = AllocationQueueInfo { creation_time: 7, removal_time: Some(9), allocations: vec![] };
    let mut table = AllocationQueueInfoTable::new();
    assert_eq!(table.get_selected_queue_descriptor(), None);
    table.update(vec![(&3, &first), (&8, &second)]);
    assert_eq!(
        table.rows(),
        &vec![
            QueueInfoRow { descriptor_id: 3, num_allocations: 1, creation_time: 5, removal_time: None },
            QueueInfoRow {
                descriptor_id: 8,
                num_allocations: 0,
                creation_time: 7,
                removal_time: Some(9)
            },
        ]
    );
    table.select_previous_queue();
    assert_eq!(table.get_selected_queue_descriptor(), Some(3));
    table.select_previous_queue();
    assert_eq!(table.get_selected_queue_descriptor(), Some(8));
    table.select_next_queue();
    assert_eq!(table.get_selected_queue_descriptor(), Some(3));
    table.update(vec![]);
    assert_eq!(table.get_selected_queue_descriptor(), None);
    assert_eq!(AllocationQueueInfoTable::default().selected_index(), None);
}

#[test]
fn failure_count_is_failed_over_counted() {
    assert_eq!(create_task_failure_count(&detail(1, "a", 1, 2, 3, 4)), "3/10");
    assert_eq!(create_task_failure_count(&detail(1, "a", 0, 0, 0, 0)), "0/0");
    assert_eq!(
        create_task_failure_count(&JobDetail {
            info: JobInfo {
                id: 1,
                name: String::new(),
                n_tasks: u32::MAX,
                counters: JobTaskCounters {
                    n_running_tasks: u32::MAX,
                    n_finished_tasks: u32::MAX,
                    n_failed_tasks: u32::MAX,
                    n_canceled_tasks: u32::MAX,
                },
            },
            tasks: vec![],
            max_fails: None,
            priority: 0,
            time_limit: None,
            submission_date: 0,
        }),
        "4294967295/17179869180"
    );
}

#[test]
fn rows_are_the_jobs_of_the_worker() {
    let details = vec![
        (1, detail(10, "ten", 1, 0, 0, 0)),
        (2, detail(20, "twenty", 0, 5, 1, 0)),
        (1, detail(30, "thirty", 2, 2, 2, 2)),
    ];
    let rows = create_rows(&details, 1);
    assert_eq!(
        rows,
        vec![
            WorkerJobRow {
                id: 10,
                info: "ten".to_string(),
                finished_tasks: 0,
                counted_tasks: 1,
                failed_tasks: "0/1".to_string(),
                max_fails: Some(2),
                priority: -1,
                time_limit: None,
                submission_date: 1000,
            },
            WorkerJobRow {
                id: 30,
                info: "thirty".to_string(),
                finished_tasks: 2,
                counted_tasks: 8,
                failed_tasks: "2/8".to_string(),
                max_fails: Some(2),
                priority: -1,
                time_limit: None,
                submission_date: 1000,
            },
        ]
    );
    assert_eq!(create_rows(&details, 3), vec![]);
}

#[test]
fn worker_jobs_table_follows_the_worker() {
    let mut table = WorkerJobsTable::new();
    table.update(vec![
        (1, detail(10, "ten", 1, 0, 0, 0)),
        (2, detail(20, "twenty", 0, 5, 1, 0)),
        (1, detail(30, "thirty", 2, 2, 2, 2)),
    ]);
    // telling the table of jobs does not change the rows
    assert!(table.rows().is_empty());
    table.update_current_worker(None);
    assert!(table.rows().is_empty());
    // worker 0 is the one shown from the start
    table.update_current_worker(Some(0));
    assert!(table.rows().is_empty());
    table.update_current_worker(Some(1));
    assert_eq!(table.rows().iter().map(|r| r.id).collect::<Vec<_>>(), vec![10, 30]);
    assert_eq!(table.get_selected_item(), None);
    table.select_next_job();
    assert_eq!(table.get_selected_item(), Some(10));
    table.select_previous_job();
    assert_eq!(table.get_selected_item(), Some(30));
    // the same worker again: nothing changes, the selection stays
    table.update_current_worker(Some(1));
    assert_eq!(table.get_selected_item(), Some(30));
    // another worker: new rows, nothing selected
    table.update_current_worker(Some(2));
    assert_eq!(table.rows().iter().map(|r| r.id).collect::<Vec<_>>(), vec![20]);
    assert_eq!(table.get_selected_item(), None);
    assert!(WorkerJobsTable::default().rows().is_empty());
}

#[test]
fn auto_allocator_screen_reacts_to_keys() {
    let first = AllocationQueueInfo {
        creation_time: 5,
        removal_time: None,
        allocations: vec![("a".to_string(), allocation(1, 6, None, None))],
    };
    let second = AllocationQueueInfo {
        creation_time: 7,
        removal_time: None,
        allocations: vec![
            ("b".to_string(), allocation(2, 8, None, None)),
            ("c".to_string(), allocation(3, 9, None, None)),
        ],
    };
    let mut screen = AutoAllocatorScreen::new();
    let mut controller = ScreenController::new();
    screen.update(vec![(&1, &first), (&2, &second)]);
    assert_eq!(screen.selected_queue(), None);
    assert!(screen.allocations_info_table().rows().is_empty());
    screen.handle_key(Key::Down, &mut controller);
    assert_eq!(screen.selected_queue(), Some(1));
    screen.handle_key(Key::Down, &mut controller);
    assert_eq!(screen.selected_queue(), Some(2));
    screen.handle_key(Key::Char('x'), &mut controller);
    screen.handle_key(Key::Left, &mut controller);
    screen.handle_key(Key::Other, &mut controller);
    assert_eq!(screen.selected_queue(), Some(2));
    assert_eq!(controller.requested, None);
    screen.update(vec![(&1, &first), (&2, &second)]);
    assert_eq!(
        screen.allocations_info_table().rows().iter().map(|r| r.num_workers).collect::<Vec<_>>(),
        vec![2, 3]
    );
    screen.handle_key(Key::Up, &mut controller);
    assert_eq!(screen.selected_queue(), Some(1));
    screen.handle_key(Key::Right, &mut controller);
    assert_eq!(controller.requested, Some(ScreenKind::ClusterOverview));
    assert_eq!(controller.take_request(), Some(ScreenKind::ClusterOverview));
    assert_eq!(controller.take_request(), None);
    assert_eq!(screen.queue_info_table().rows().len(), 2);
}

#[test]
fn controller_remembers_the_last_request() {
    let mut controller = ScreenController::new();
    controller.show_job_screen();
    controller.show_auto_allocator_screen();
    assert_eq!(controller.requested, Some(ScreenKind::AutoAllocator));
    controller.show_cluster_overview();
    assert_eq!(controller.take_request(), Some(ScreenKind::ClusterOverview));
    controller.show_job_screen();
    assert_eq!(controller.requested, Some(ScreenKind::Job));
}
