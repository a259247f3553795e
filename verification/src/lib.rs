//! Output streaming for a distributed task scheduler, together with the data model of its
//! monitoring dashboard.
//!
//! Tasks running on remote workers emit their output as a stream of messages. The stream server
//! multiplexes these messages by job and appends every job's stream to a binary log file.
//! Everything that decides *what* is written, *where* a message goes and *which* answer a
//! producer gets lives in this crate and is verified; sockets, files and encryption stay with
//! the embedding program, which feeds plain values in and carries plain values out.
use vstd::prelude::*;

pub mod dashboard;
pub mod server;
pub mod stream;
pub mod text;
pub mod transfer;

verus! {

/// Identifier of a job.
pub type JobId = u32;

/// Identifier of a task within its job.
pub type JobTaskId = u32;

/// Number of tasks of a job.
pub type JobTaskCount = u32;

/// Scheduler-wide identifier of a task.
pub type TakoTaskId = u64;

/// Identifier of a worker.
pub type WorkerId = u32;

/// Identifier of an accepted connection, assigned by whoever accepted it.
pub type ConnectionId = u64;

/// A point in time, in milliseconds since the Unix epoch.
pub type Timestamp = u64;

} // verus!
