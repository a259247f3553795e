pub mod allocations_info_table;
pub mod queue_info_table;
pub mod screen;
