//! The writer of one job: it takes the messages of the job in the order of their arrival and
//! says, for each, what is to be appended to the job's log and what the producer is to be told.
//!
//! The writer does not touch the file. It hands out the bytes, the caller appends them, and
//! tells the writer if that went wrong. A writer whose file has failed appends nothing more.
use crate::stream::buffer::{buffer_clear, buffer_to_vec, buffer_with_capacity};
use crate::stream::error::StreamError;
use crate::stream::log::{
    check_payload_len, header_bytes, put_header, put_record, record_bytes, record_fits, record_of,
};
use crate::stream::server::{StreamServerState, WriterHandle};
use crate::transfer::stream::{
    EndTaskStreamResponseMsg, FromStreamerMessage, ToStreamerMessage, ToStreamerMessageView,
};
use crate::{ConnectionId, JobTaskId};
use bytes::BytesMut;
use std::collections::HashSet;
use vstd::prelude::*;

verus! {

broadcast use vstd::std_specs::hash::group_hash_axioms;

/// The number of messages that the queue of a writer holds. A producer whose message finds the
/// queue full waits until there is room.
pub const STREAM_BUFFER_SIZE: usize = 32;

/// What reaches a writer through its queue.
#[derive(Debug, Clone, PartialEq, Eq)]
pub enum StreamMessage {
    /// A message of a producer, and the connection over which it came.
    Message(FromStreamerMessage, ConnectionId),
    /// The request to finish: what was queued before it is in the log, nothing comes after it.
    Close,
}

/// Where a writer stands.
#[derive(Debug, Clone, Copy, PartialEq, Eq, Structural)]
pub enum WriterState {
    /// The writer appends to its log.
    Active,
    /// The file of the log has failed. The writer turns every message away.
    Failed,
    /// The writer has been asked to finish. The writer turns every message away.
    Closed,
}

/// What is to be done for one message.
#[derive(Debug, Clone, PartialEq, Eq)]
pub enum WriterOp {
    /// Append `bytes` to the log. `source` produced them.
    Append { bytes: Vec<u8>, source: ConnectionId },
    /// Append `bytes` to the log and flush it to stable storage; then send `response` to
    /// `source`.
    AppendAndFlush { bytes: Vec<u8>, source: ConnectionId, response: EndTaskStreamResponseMsg },
    /// Append nothing; tell `source` that its message was turned away, and why.
    Reject { source: ConnectionId, error: StreamError },
    /// Flush and close the log; the writer has finished.
    Shutdown,
    /// Nothing is left to do for a writer that has failed or finished.
    Idle,
}

/// What is to be done for one message, as a mathematical value.
pub enum WriterOpView {
    Append { bytes: Seq<u8>, source: ConnectionId },
    AppendAndFlush { bytes: Seq<u8>, source: ConnectionId, response: EndTaskStreamResponseMsg },
    Reject { source: ConnectionId, error: StreamError },
    Shutdown,
    Idle,
}

impl View for WriterOp {
    type V = WriterOpView;

    open spec fn view(&self) -> WriterOpView {
        match *self {
            WriterOp::Append { bytes, source } => WriterOpView::Append { bytes: bytes@, source },
            WriterOp::AppendAndFlush { bytes, source, response } => WriterOpView::AppendAndFlush {
                bytes: bytes@,
                source,
                response,
            },
            WriterOp::Reject { source, error } => WriterOpView::Reject { source, error },
            WriterOp::Shutdown => WriterOpView::Shutdown,
            WriterOp::Idle => WriterOpView::Idle,
        }
    }
}

impl WriterOpView {
    /// The bytes by which the log grows when the operation succeeds.
    pub open spec fn appended(self) -> Seq<u8> {
        match self {
            WriterOpView::Append { bytes, .. } => bytes,
            WriterOpView::AppendAndFlush { bytes, .. } => bytes,
            _ => Seq::empty(),
        }
    }

    /// What is sent, and to which connection, when the operation succeeds.
    pub open spec fn reply(self) -> Option<(ConnectionId, ToStreamerMessageView)> {
        match self {
            WriterOpView::AppendAndFlush { source, response, .. } => Some(
                (source, ToStreamerMessageView::EndResponse(response)),
            ),
            WriterOpView::Reject { source, error } => Some(
                (source, ToStreamerMessageView::Error(error.message_spec())),
            ),
            _ => None,
        }
    }

    /// Whether the connection of the message is to be closed once the reply has been sent:
    /// it is when the message broke the protocol.
    pub open spec fn closes_connection(self) -> bool {
        self matches WriterOpView::Reject { error, .. } && error.spec_is_protocol_violation()
    }

    /// The connection that is told when the operation fails on the file.
    pub open spec fn source(self) -> Option<ConnectionId> {
        match self {
            WriterOpView::Append { source, .. } => Some(source),
            WriterOpView::AppendAndFlush { source, .. } => Some(source),
            _ => None,
        }
    }
}

/// The writer of one job.
pub struct JobStreamWriter {
    handle: WriterHandle,
    state: WriterState,
    ended: HashSet<JobTaskId>,
    buffer: BytesMut,
}

/// The writer of one job as a mathematical value.
pub struct WriterView {
    /// The name under which the registry knows the writer.
    pub handle: WriterHandle,
    /// Where the writer stands.
    pub state: WriterState,
    /// The tasks whose stream has ended.
    pub ended: Set<JobTaskId>,
}

impl WriterView {
    /// A writer that has just been started.
    pub open spec fn fresh(handle: WriterHandle) -> WriterView {
        WriterView { handle, state: WriterState::Active, ended: Set::empty() }
    }

    /// Why the record of `message` is not appended, if it is not: the writer has failed or
    /// finished, or the message is output of a task whose stream has ended, or its output does
    /// not fit into a record.
    pub open spec fn refusal(self, message: FromStreamerMessage) -> Option<StreamError> {
        match self.state {
            WriterState::Failed => Some(StreamError::JobStreamErrored(self.handle.job)),
            WriterState::Closed => Some(StreamError::WriterClosed(self.handle.job)),
            WriterState::Active => {
                if message is Data && self.ended.contains(message.spec_task()) {
                    Some(
                        StreamError::DataAfterEnd {
                            job: self.handle.job,
                            task: message.spec_task(),
                        },
                    )
                } else if !record_fits(record_of(message)) {
                    Some(
                        StreamError::PayloadTooLarge {
                            job: self.handle.job,
                            task: message.spec_task(),
                        },
                    )
                } else {
                    None
                }
            },
        }
    }

    /// What is to be done for `message`.
    pub open spec fn op(self, message: StreamMessage) -> WriterOpView {
        match message {
            StreamMessage::Close => if self.state is Active {
                WriterOpView::Shutdown
            } else {
                WriterOpView::Idle
            },
            StreamMessage::Message(m, source) => match self.refusal(m) {
                Some(error) => WriterOpView::Reject { source, error },
                None => if m is End {
                    WriterOpView::AppendAndFlush {
                        bytes: record_bytes(record_of(m)),
                        source,
                        response: EndTaskStreamResponseMsg {
                            job: self.handle.job,
                            task: m.spec_task(),
                        },
                    }
                } else {
                    WriterOpView::Append { bytes: record_bytes(record_of(m)), source }
                },
            },
        }
    }

    /// The writer after `message`: an `End` that is appended puts its task among the ended
    /// ones, `Close` finishes a writer that is at work, and nothing else changes anything.
    pub open spec fn next(self, message: StreamMessage) -> WriterView {
        match message {
            StreamMessage::Close => if self.state is Active {
                WriterView { state: WriterState::Closed, ..self }
            } else {
                self
            },
            StreamMessage::Message(m, _) => if self.refusal(m) is None && m is End {
                WriterView { ended: self.ended.insert(m.spec_task()), ..self }
            } else {
                self
            },
        }
    }

    /// The writer after its file has failed: a writer at work has failed, and nothing else
    /// changes.
    pub open spec fn fail(self) -> WriterView {
        if self.state is Active {
            WriterView { state: WriterState::Failed, ..self }
        } else {
            self
        }
    }
}

impl View for JobStreamWriter {
    type V = WriterView;

    closed spec fn view(&self) -> WriterView {
        WriterView { handle: self.handle, state: self.state, ended: self.ended@ }
    }
}

impl WriterOp {
    /// What is to be sent, and to which connection, once the operation has succeeded.
    pub fn reply_on_success(&self) -> (reply: Option<(ConnectionId, ToStreamerMessage)>)
        ensures
            reply is Some <==> self@.reply() is Some,
            reply matches Some((to, message)) ==> self@.reply() == Some((to, message@)),
    {
        match self {
            WriterOp::AppendAndFlush { source, response, .. } => Some(
                (*source, ToStreamerMessage::EndResponse(*response)),
            ),
            WriterOp::Reject { source, error } => Some(
                (*source, ToStreamerMessage::Error(error.message())),
            ),
            _ => None,
        }
    }

    /// Whether the connection of the message is to be closed once the reply has been sent.
    pub fn closes_connection(&self) -> (closes: bool)
        ensures
            closes == self@.closes_connection(),
    {
        match self {
            WriterOp::Reject { error, .. } => error.is_protocol_violation(),
            _ => false,
        }
    }

    /// The connection that is to be told if the operation fails on the file.
    pub fn source(&self) -> (source: Option<ConnectionId>)
        ensures
            source == self@.source(),
    {
        match self {
            WriterOp::Append { source, .. } => Some(*source),
            WriterOp::AppendAndFlush { source, .. } => Some(*source),
            _ => None,
        }
    }
}

impl JobStreamWriter {
    /// Starts the writer that the registry knows as `handle`, and hands out the header with
    /// which its log begins: the file is to be created, or emptied, and the header written,
    /// before the first message is taken.
    pub fn start(handle: WriterHandle) -> (started: (JobStreamWriter, Vec<u8>))
        ensures
            started.0@ == WriterView::fresh(handle),
            started.1@ == header_bytes(),
    {
        let mut buffer = buffer_with_capacity(16);
        put_header(&mut buffer);
        let header = buffer_to_vec(&buffer);
        let writer = JobStreamWriter {
            handle,
            state: WriterState::Active,
            ended: HashSet::new(),
            buffer,
        };
        (writer, header)
    }

    /// The name under which the registry knows the writer.
    pub fn handle(&self) -> (handle: WriterHandle)
        ensures
            handle == self@.handle,
    {
        self.handle
    }

    /// Where the writer stands.
    pub fn state(&self) -> (state: WriterState)
        ensures
            state == self@.state,
    {
        self.state
    }

    /// Whether the stream of `task` has ended.
    pub fn has_ended(&self, task: JobTaskId) -> (ended: bool)
        ensures
            ended == self@.ended.contains(task),
    {
        self.ended.contains(&task)
    }

    /// Takes the next message from the queue and says what is to be done for it.
    ///
    /// `Start` and `Data` append their record. `End` appends its record, has the log flushed
    /// and is answered with the acknowledgement; from then on output of the same task is turned
    /// away. A writer that has failed or finished turns every message away. `Close` finishes
    /// the writer.
    pub fn accept(&mut self, message: StreamMessage) -> (op: WriterOp)
        ensures
            op@ == old(self)@.op(message),
            final(self)@ == old(self)@.next(message),
    {
        match message {
            StreamMessage::Close => {
                match self.state {
                    WriterState::Active => {
                        self.state = WriterState::Closed;
                        WriterOp::Shutdown
                    },
                    _ => WriterOp::Idle,
                }
            },
            StreamMessage::Message(m, source) => {
                let job = self.handle.job;
                let task = m.task();
                match self.state {
                    WriterState::Failed => {
                        return WriterOp::Reject {
                            source,
                            error: StreamError::JobStreamErrored(job),
                        };
                    },
                    WriterState::Closed => {
                        return WriterOp::Reject { source, error: StreamError::WriterClosed(job) };
                    },
                    WriterState::Active => {},
                }
                let fits = match &m {
                    FromStreamerMessage::Data(d) => {
                        if self.ended.contains(&task) {
                            return WriterOp::Reject {
                                source,
                                error: StreamError::DataAfterEnd { job, task },
                            };
                        }
                        check_payload_len(d.data.len())
                    },
                    _ => true,
                };
                if !fits {
                    return WriterOp::Reject {
                        source,
                        error: StreamError::PayloadTooLarge { job, task },
                    };
                }
                buffer_clear(&mut self.buffer);
                put_record(&mut self.buffer, &m);
                let bytes = buffer_to_vec(&self.buffer);
                match m {
                    FromStreamerMessage::End(_) => {
                        self.ended.insert(task);
                        WriterOp::AppendAndFlush {
                            bytes,
                            source,
                            response: EndTaskStreamResponseMsg { job, task },
                        }
                    },
                    _ => WriterOp::Append { bytes, source },
                }
            },
        }
    }

    /// Records that the file of the log has failed, and says what the connection whose message
    /// was being written, if there is one, is to be told: the reason.
    pub fn fail(&mut self, source: Option<ConnectionId>, reason: String) -> (reply: Option<
        (ConnectionId, ToStreamerMessage),
    >)
        ensures
            final(self)@ == old(self)@.fail(),
            reply == match source {
                Some(to) => Some((to, ToStreamerMessage::Error(reason))),
                None => None,
            },
    {
        match self.state {
            WriterState::Active => {
                self.state = WriterState::Failed;
            },
            _ => {},
        }
        match source {
            Some(to) => Some((to, ToStreamerMessage::Error(reason))),
            None => None,
        }
    }
}

/// Carries out the failure of a writer on its file: the writer has failed from now on, the
/// registry takes it off its record and puts the failure of its job on record, and the
/// connection whose message was being written, if there is one, is to be told the reason.
pub fn report_failure(
    server: &mut StreamServerState,
    writer: &mut JobStreamWriter,
    source: Option<ConnectionId>,
    reason: String,
) -> (reply: Option<(ConnectionId, ToStreamerMessage)>)
    requires
        old(server).wf(),
    ensures
        final(server).wf(),
        final(writer)@ == old(writer)@.fail(),
        final(server)@ == old(server)@.writer_failed(old(writer)@.handle),
        reply == match source {
            Some(to) => Some((to, ToStreamerMessage::Error(reason))),
            None => None,
        },
{
    let reply = writer.fail(source, reason);
    server.writer_failed(writer.handle());
    reply
}

/// Carries out the end of a writer that has finished: the registry takes it off its record.
/// Says whether it was on record.
pub fn report_finished(server: &mut StreamServerState, writer: &JobStreamWriter) -> (removed: bool)
    requires
        old(server).wf(),
    ensures
        final(server).wf(),
        removed == old(server)@.is_active(writer@.handle),
        final(server)@ == old(server)@.writer_finished(writer@.handle),
{
    server.writer_finished(writer.handle())
}

} // verus!
