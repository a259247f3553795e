pub mod auto_allocator;
pub mod home;
pub mod job;
