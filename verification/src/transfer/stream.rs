//! Messages exchanged between a task-side producer and the stream server.
use crate::{JobId, JobTaskId};
use vstd::prelude::*;

verus! {

/// Distinguishes the independent output channels of one task.
pub type ChannelId = u32;

/// Announces that a task starts streaming.
#[derive(Debug, Clone, Copy, PartialEq, Eq, Structural)]
pub struct StartTaskStreamMsg {
    pub job: JobId,
    pub task: JobTaskId,
}

/// A chunk of output of one channel of a task.
#[derive(Debug, Clone, PartialEq, Eq)]
pub struct DataMsg {
    pub job: JobId,
    pub task: JobTaskId,
    pub channel: ChannelId,
    pub data: Vec<u8>,
}

/// Announces that a task will send no more output.
#[derive(Debug, Clone, Copy, PartialEq, Eq, Structural)]
pub struct EndTaskStreamMsg {
    pub job: JobId,
    pub task: JobTaskId,
}

/// What a producer sends to the stream server.
#[derive(Debug, Clone, PartialEq, Eq)]
pub enum FromStreamerMessage {
    Start(StartTaskStreamMsg),
    Data(DataMsg),
    End(EndTaskStreamMsg),
}

/// Confirms that the stream of a task was flushed to its log.
#[derive(Debug, Clone, Copy, PartialEq, Eq, Structural)]
pub struct EndTaskStreamResponseMsg {
    pub job: JobId,
    pub task: JobTaskId,
}

/// What the stream server sends back to a producer.
#[derive(Debug, Clone, PartialEq, Eq)]
pub enum ToStreamerMessage {
    Error(String),
    EndResponse(EndTaskStreamResponseMsg),
}

/// What the stream server sends back to a producer, as a mathematical value.
pub enum ToStreamerMessageView {
    Error(Seq<char>),
    EndResponse(EndTaskStreamResponseMsg),
}

impl View for ToStreamerMessage {
    type V = ToStreamerMessageView;

    open spec fn view(&self) -> ToStreamerMessageView {
        match *self {
            ToStreamerMessage::Error(text) => ToStreamerMessageView::Error(text@),
            ToStreamerMessage::EndResponse(response) => ToStreamerMessageView::EndResponse(
                response,
            ),
        }
    }
}

impl FromStreamerMessage {
    /// The job that the message belongs to.
    pub open spec fn spec_job(&self) -> JobId {
        match *self {
            FromStreamerMessage::Start(m) => m.job,
            FromStreamerMessage::Data(m) => m.job,
            FromStreamerMessage::End(m) => m.job,
        }
    }

    /// The task that the message belongs to.
    pub open spec fn spec_task(&self) -> JobTaskId {
        match *self {
            FromStreamerMessage::Start(m) => m.task,
            FromStreamerMessage::Data(m) => m.task,
            FromStreamerMessage::End(m) => m.task,
        }
    }

    /// The job that the message belongs to.
    #[verifier::when_used_as_spec(spec_job)]
    pub fn job(&self) -> (id: JobId)
        ensures
            id == self.spec_job(),
    {
        match self {
            FromStreamerMessage::Start(m) => m.job,
            FromStreamerMessage::Data(m) => m.job,
            FromStreamerMessage::End(m) => m.job,
        }
    }

    /// The task that the message belongs to.
    #[verifier::when_used_as_spec(spec_task)]
    pub fn task(&self) -> (id: JobTaskId)
        ensures
            id == self.spec_task(),
    {
        match self {
            FromStreamerMessage::Start(m) => m.task,
            FromStreamerMessage::Data(m) => m.task,
            FromStreamerMessage::End(m) => m.task,
        }
    }
}

} // verus!
