//! The commands by which the scheduler drives the stream server.
use crate::{ConnectionId, JobId};
use std::path::PathBuf;
use vstd::prelude::*;

verus! {

#[verifier::external_type_specification]
#[verifier::external_body]
pub struct ExPathBuf(std::path::PathBuf);

/// `PathBuf::clone`: a path equal to the one given.
pub assume_specification[ <std::path::PathBuf as Clone>::clone ](path: &PathBuf) -> (copy: PathBuf)
    ensures
        copy == *path,
;

/// A command of the scheduler. Commands are carried out in the order in which they were given.
#[derive(Debug, Clone, PartialEq, Eq)]
pub enum StreamServerControlMessage {
    /// Streams of the job are to be appended to the file at the path. Given before any task of
    /// the job starts.
    RegisterStream(JobId, PathBuf),
    /// The job takes no new streams. Giving it for a job that is not registered changes nothing.
    UnregisterStream(JobId),
    /// A connection was accepted, its handshake is done, and it is to be served from now on.
    AddConnection(ConnectionId),
}

/// What is left to do, outside of the server's state, once a command has been carried out.
#[derive(Debug, Clone, Copy, PartialEq, Eq, Structural)]
pub enum ControlAction {
    /// Nothing.
    Done,
    /// Start serving the connection, independently of everything else.
    ServeConnection(ConnectionId),
}

} // verus!
