//! The registry of the stream server: which job streams into which file, and which writer is
//! at work for which job.
//!
//! There is at most one writer for a job at any time. It is made when the first message for a
//! registered job arrives, by the same step that finds none, so that two first messages cannot
//! both make one. A writer leaves the registry when it has finished or when its file has
//! failed; in the second case the job is remembered as failed, and turns messages away, until
//! it is registered again.
use crate::stream::control::{ControlAction, StreamServerControlMessage};
use crate::stream::error::StreamError;
use crate::stream::laws::{lemma_server_step_wf, ServerEvent};
use crate::JobId;
use std::collections::{HashMap, HashSet};
use std::path::PathBuf;
use vstd::prelude::*;

verus! {

broadcast use vstd::std_specs::hash::group_hash_axioms;

/// Names one writer: the job that it writes for, and a serial number that no other writer of
/// this server has.
#[derive(Debug, Clone, Copy, PartialEq, Eq, Hash, Structural)]
pub struct WriterHandle {
    pub job: JobId,
    pub serial: u64,
}

/// Where a message for a job is to go.
#[derive(Debug, Clone, PartialEq, Eq)]
pub struct StreamTarget {
    /// The writer that takes the message.
    pub handle: WriterHandle,
    /// The file for which the writer is to be started, if it was made just now.
    pub created: Option<PathBuf>,
}

/// The state of the stream server.
pub struct StreamServerState {
    streams: HashMap<JobId, WriterHandle>,
    registrations: HashMap<JobId, PathBuf>,
    failed: HashSet<JobId>,
    next_serial: u64,
}

/// The state of the stream server as a mathematical value.
pub struct ServerView {
    /// The writer at work for each job that has one.
    pub streams: Map<JobId, WriterHandle>,
    /// The file of each registered job.
    pub registrations: Map<JobId, PathBuf>,
    /// The jobs whose writer has failed since they were last registered.
    pub failed: Set<JobId>,
    /// The serial number of the next writer.
    pub next_serial: nat,
}

impl ServerView {
    /// The state of a server that has just been started.
    pub open spec fn empty() -> ServerView {
        ServerView {
            streams: Map::empty(),
            registrations: Map::empty(),
            failed: Set::empty(),
            next_serial: 0,
        }
    }

    /// What holds of every state that a server reaches: a writer is filed under its own job, its
    /// serial number has been used up, and no job has both a writer and a failure on record.
    pub open spec fn wf(self) -> bool {
        &&& self.next_serial <= u64::MAX
        &&& forall|job: JobId| #[trigger]
            self.streams.contains_key(job) ==> self.streams[job].job == job
                && self.streams[job].serial < self.next_serial
        &&& forall|job: JobId| #[trigger]
            self.failed.contains(job) ==> !self.streams.contains_key(job)
    }

    /// Whether `handle` names the writer that is at work for its job.
    pub open spec fn is_active(self, handle: WriterHandle) -> bool {
        self.streams.contains_key(handle.job) && self.streams[handle.job] == handle
    }

    /// The answer to registering `job`: it is refused exactly when the job is registered.
    pub open spec fn register_result(self, job: JobId) -> Result<(), StreamError> {
        if self.registrations.contains_key(job) {
            Err(StreamError::AlreadyRegistered(job))
        } else {
            Ok(())
        }
    }

    /// The state after registering `job` with `path`: unchanged when the job is registered;
    /// else the path is on record and a failure of the job forgotten.
    pub open spec fn register(self, job: JobId, path: PathBuf) -> ServerView {
        if self.registrations.contains_key(job) {
            self
        } else {
            ServerView {
                registrations: self.registrations.insert(job, path),
                failed: self.failed.remove(job),
                ..self
            }
        }
    }

    /// The state after unregistering `job`: its path is forgotten, nothing else changes.
    pub open spec fn unregister(self, job: JobId) -> ServerView {
        ServerView { registrations: self.registrations.remove(job), ..self }
    }

    /// Where a message for `job` goes: to the writer of the job if it has one; else nowhere if
    /// the job has failed; else to a new writer if the job is registered and a serial number is
    /// left; else nowhere.
    pub open spec fn lookup(self, job: JobId) -> Result<StreamTarget, StreamError> {
        if self.streams.contains_key(job) {
            Ok(StreamTarget { handle: self.streams[job], created: None })
        } else if self.failed.contains(job) {
            Err(StreamError::JobStreamErrored(job))
        } else if self.registrations.contains_key(job) {
            if self.next_serial >= u64::MAX {
                Err(StreamError::WriterLimit)
            } else {
                Ok(
                    StreamTarget {
                        handle: WriterHandle { job, serial: self.next_serial as u64 },
                        created: Some(self.registrations[job]),
                    },
                )
            }
        } else {
            Err(StreamError::NotRegistered(job))
        }
    }

    /// The state after a message for `job` was looked up: a writer that was made is on record,
    /// and its serial number used up; nothing else changes.
    pub open spec fn after_lookup(self, job: JobId) -> ServerView {
        match self.lookup(job) {
            Ok(target) => if target.created is Some {
                ServerView {
                    streams: self.streams.insert(job, target.handle),
                    next_serial: self.next_serial + 1,
                    ..self
                }
            } else {
                self
            },
            Err(_) => self,
        }
    }

    /// The state after the writer `handle` has finished: it is no longer on record. A handle
    /// that names no writer at work changes nothing.
    pub open spec fn writer_finished(self, handle: WriterHandle) -> ServerView {
        if self.is_active(handle) {
            ServerView { streams: self.streams.remove(handle.job), ..self }
        } else {
            self
        }
    }

    /// The state after the writer `handle` has failed: it is no longer on record, and its job
    /// is on record as failed. A handle that names no writer at work changes nothing.
    pub open spec fn writer_failed(self, handle: WriterHandle) -> ServerView {
        if self.is_active(handle) {
            ServerView {
                streams: self.streams.remove(handle.job),
                failed: self.failed.insert(handle.job),
                ..self
            }
        } else {
            self
        }
    }
}

impl View for StreamServerState {
    type V = ServerView;

    closed spec fn view(&self) -> ServerView {
        ServerView {
            streams: self.streams@,
            registrations: self.registrations@,
            failed: self.failed@,
            next_serial: self.next_serial as nat,
        }
    }
}

impl StreamServerState {
    /// What holds of every state that a server reaches.
    pub open spec fn wf(&self) -> bool {
        self@.wf()
    }

    /// The state of a server that has just been started: no job is registered, no writer is at
    /// work.
    pub fn new() -> (state: Self)
        ensures
            state.wf(),
            state@ == ServerView::empty(),
    {
        StreamServerState {
            streams: HashMap::new(),
            registrations: HashMap::new(),
            failed: HashSet::new(),
            next_serial: 0,
        }
    }

    /// Registers `job_id` for streaming into the file at `path`.
    ///
    /// A job that is registered cannot be registered again: the call fails with
    /// `StreamError::AlreadyRegistered` and leaves everything, the path on record too, as it was.
    pub fn register_stream(&mut self, job_id: JobId, path: PathBuf) -> (result: Result<
        (),
        StreamError,
    >)
        requires
            old(self).wf(),
        ensures
            final(self).wf(),
            result == old(self)@.register_result(job_id),
            final(self)@ == old(self)@.register(job_id, path),
    {
        if self.registrations.contains_key(&job_id) {
            return Err(StreamError::AlreadyRegistered(job_id));
        }
        self.registrations.insert(job_id, path);
        self.failed.remove(&job_id);
        proof {
            lemma_server_step_wf(old(self)@, ServerEvent::Register(job_id, path));
        }
        Ok(())
    }

    /// Takes back the registration of `job_id`, if there is one. A writer that is at work for
    /// the job stays at work.
    pub fn unregister_stream(&mut self, job_id: JobId)
        requires
            old(self).wf(),
        ensures
            final(self).wf(),
            final(self)@ == old(self)@.unregister(job_id),
    {
        self.registrations.remove(&job_id);
    }

    /// Finds the writer that takes the messages of `job_id`, and makes it if the job is
    /// registered and has none.
    pub fn get_stream(&mut self, job_id: JobId) -> (result: Result<StreamTarget, StreamError>)
        requires
            old(self).wf(),
        ensures
            final(self).wf(),
            result == old(self)@.lookup(job_id),
            final(self)@ == old(self)@.after_lookup(job_id),
    {
        if let Some(handle) = self.streams.get(&job_id) {
            return Ok(StreamTarget { handle: *handle, created: None });
        }
        if self.failed.contains(&job_id) {
            return Err(StreamError::JobStreamErrored(job_id));
        }
        match self.registrations.get(&job_id) {
            Some(path) => {
                if self.next_serial == u64::MAX {
                    return Err(StreamError::WriterLimit);
                }
                let handle = WriterHandle { job: job_id, serial: self.next_serial };
                let path = path.clone();
                self.streams.insert(job_id, handle);
                self.next_serial = self.next_serial + 1;
                Ok(StreamTarget { handle, created: Some(path) })
            },
            None => Err(StreamError::NotRegistered(job_id)),
        }
    }

    /// Takes the writer `handle` off the record once it has finished. Says whether it was on
    /// record.
    pub fn writer_finished(&mut self, handle: WriterHandle) -> (removed: bool)
        requires
            old(self).wf(),
        ensures
            final(self).wf(),
            removed == old(self)@.is_active(handle),
            final(self)@ == old(self)@.writer_finished(handle),
    {
        let active = match self.streams.get(&handle.job) {
            Some(current) => current.serial == handle.serial,
            None => false,
        };
        if active {
            self.streams.remove(&handle.job);
            proof {
                lemma_server_step_wf(old(self)@, ServerEvent::WriterFinished(handle));
            }
        }
        active
    }

    /// Takes the writer `handle` off the record once its file has failed, and puts the failure
    /// of its job on record. Says whether the writer was on record.
    pub fn writer_failed(&mut self, handle: WriterHandle) -> (removed: bool)
        requires
            old(self).wf(),
        ensures
            final(self).wf(),
            removed == old(self)@.is_active(handle),
            final(self)@ == old(self)@.writer_failed(handle),
    {
        let active = match self.streams.get(&handle.job) {
            Some(current) => current.serial == handle.serial,
            None => false,
        };
        if active {
            self.streams.remove(&handle.job);
            self.failed.insert(handle.job);
            proof {
                lemma_server_step_wf(old(self)@, ServerEvent::WriterFailed(handle));
            }
        }
        active
    }

    /// Carries out one command of the scheduler.
    ///
    /// Registering a job that is registered fails, and changes nothing; every other command
    /// succeeds. A connection that was handed over is to be served by the caller.
    pub fn handle_control(&mut self, message: StreamServerControlMessage) -> (result: Result<
        ControlAction,
        StreamError,
    >)
        requires
            old(self).wf(),
        ensures
            final(self).wf(),
            match message {
                StreamServerControlMessage::RegisterStream(job, path) => {
                    &&& final(self)@ == old(self)@.register(job, path)
                    &&& result == match old(self)@.register_result(job) {
                        Ok(_) => Ok::<ControlAction, StreamError>(ControlAction::Done),
                        Err(e) => Err::<ControlAction, StreamError>(e),
                    }
                },
                StreamServerControlMessage::UnregisterStream(job) => {
                    &&& final(self)@ == old(self)@.unregister(job)
                    &&& result == Ok::<ControlAction, StreamError>(ControlAction::Done)
                },
                StreamServerControlMessage::AddConnection(connection) => {
                    &&& final(self)@ == old(self)@
                    &&& result == Ok::<ControlAction, StreamError>(
                        ControlAction::ServeConnection(connection),
                    )
                },
            },
    {
        match message {
            StreamServerControlMessage::RegisterStream(job, path) => {
                match self.register_stream(job, path) {
                    Ok(_) => Ok(ControlAction::Done),
                    Err(e) => Err(e),
                }
            },
            StreamServerControlMessage::UnregisterStream(job) => {
                self.unregister_stream(job);
                Ok(ControlAction::Done)
            },
            StreamServerControlMessage::AddConnection(connection) => Ok(
                ControlAction::ServeConnection(connection),
            ),
        }
    }

    /// Whether `job_id` is registered for streaming.
    pub fn is_registered(&self, job_id: JobId) -> (registered: bool)
        ensures
            registered == self@.registrations.contains_key(job_id),
    {
        self.registrations.contains_key(&job_id)
    }

    /// The file into which `job_id` streams, if the job is registered.
    pub fn registered_path(&self, job_id: JobId) -> (path: Option<&PathBuf>)
        ensures
            path is Some <==> self@.registrations.contains_key(job_id),
            path matches Some(p) ==> *p == self@.registrations[job_id],
    {
        self.registrations.get(&job_id)
    }

    /// The writer that is at work for `job_id`, if there is one.
    pub fn active_writer(&self, job_id: JobId) -> (handle: Option<WriterHandle>)
        ensures
            handle is Some <==> self@.streams.contains_key(job_id),
            handle matches Some(h) ==> h == self@.streams[job_id],
    {
        match self.streams.get(&job_id) {
            Some(handle) => Some(*handle),
            None => None,
        }
    }

    /// Whether the writer of `job_id` has failed since the job was last registered.
    pub fn has_failed(&self, job_id: JobId) -> (failed: bool)
        ensures
            failed == self@.failed.contains(job_id),
    {
        self.failed.contains(&job_id)
    }
}

} // verus!
