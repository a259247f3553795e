pub mod worker_jobs_table;
