//! The ways in which the stream server turns a request down, and the words in which it says so
//! to a producer.
use crate::text::{decimal, push_decimal};
use crate::{JobId, JobTaskId};
use vstd::prelude::*;
use vstd::string::*;

verus! {

/// Why the stream server did not do what it was asked to do.
#[derive(Debug, Clone, Copy, PartialEq, Eq, Structural)]
pub enum StreamError {
    /// The job is registered for streaming already.
    AlreadyRegistered(JobId),
    /// The job is not registered for streaming and has no writer.
    NotRegistered(JobId),
    /// The writer of the job has failed on its file; the job takes no output until it is
    /// registered again.
    JobStreamErrored(JobId),
    /// Output arrived for a task whose stream has ended.
    DataAfterEnd { job: JobId, task: JobTaskId },
    /// The output of one message is longer than a record of the log can hold.
    PayloadTooLarge { job: JobId, task: JobTaskId },
    /// The writer of the job was closed before the message reached it.
    WriterClosed(JobId),
    /// The server has handed out every writer handle that it can form.
    WriterLimit,
}

impl StreamError {
    /// The words in which the error is reported to a producer.
    pub open spec fn message_spec(self) -> Seq<char> {
        match self {
            StreamError::AlreadyRegistered(job) => "Job "@ + decimal(job as nat)
                + " is already registered for streaming"@,
            StreamError::NotRegistered(job) => "Job "@ + decimal(job as nat)
                + " is not registered for streaming"@,
            StreamError::JobStreamErrored(job) => "Stream of job "@ + decimal(job as nat)
                + " has failed"@,
            StreamError::DataAfterEnd { job, task } => "Task "@ + decimal(task as nat)
                + " of job "@ + decimal(job as nat) + " sent data after the end of its stream"@,
            StreamError::PayloadTooLarge { job, task } => "Task "@ + decimal(task as nat)
                + " of job "@ + decimal(job as nat) + " sent more data than a record can hold"@,
            StreamError::WriterClosed(job) => "Stream of job "@ + decimal(job as nat)
                + " is closed"@,
            StreamError::WriterLimit => "No writer can be started"@,
        }
    }

    /// The words in which the error is reported to a producer.
    pub fn message(&self) -> (text: String)
        ensures
            text@ == self.message_spec(),
    {
        let mut text = String::new();
        match *self {
            StreamError::AlreadyRegistered(job) => {
                text.append("Job ");
                push_decimal(&mut text, job as u64);
                text.append(" is already registered for streaming");
            },
            StreamError::NotRegistered(job) => {
                text.append("Job ");
                push_decimal(&mut text, job as u64);
                text.append(" is not registered for streaming");
            },
            StreamError::JobStreamErrored(job) => {
                text.append("Stream of job ");
                push_decimal(&mut text, job as u64);
                text.append(" has failed");
            },
            StreamError::DataAfterEnd { job, task } => {
                text.append("Task ");
                push_decimal(&mut text, task as u64);
                text.append(" of job ");
                push_decimal(&mut text, job as u64);
                text.append(" sent data after the end of its stream");
            },
            StreamError::PayloadTooLarge { job, task } => {
                text.append("Task ");
                push_decimal(&mut text, task as u64);
                text.append(" of job ");
                push_decimal(&mut text, job as u64);
                text.append(" sent more data than a record can hold");
            },
            StreamError::WriterClosed(job) => {
                text.append("Stream of job ");
                push_decimal(&mut text, job as u64);
                text.append(" is closed");
            },
            StreamError::WriterLimit => {
                text.append("No writer can be started");
            },
        }
        text
    }

    /// Whether the error is a breach of the protocol by the producer, which ends its
    /// connection once the error has been reported.
    pub open spec fn spec_is_protocol_violation(&self) -> bool {
        self is DataAfterEnd || self is PayloadTooLarge
    }

    /// Whether the error is a breach of the protocol by the producer, which ends its
    /// connection once the error has been reported.
    #[verifier::when_used_as_spec(spec_is_protocol_violation)]
    pub fn is_protocol_violation(&self) -> (b: bool)
        ensures
            b == self.spec_is_protocol_violation(),
    {
        match self {
            StreamError::DataAfterEnd { .. } => true,
            StreamError::PayloadTooLarge { .. } => true,
            _ => false,
        }
    }
}

} // verus!
