//! What the stream server guarantees over whole runs: statements about sequences of messages
//! and commands, proved from the single steps of the registry and of the writer.
//!
//! A run is described here under the assumption that the file takes everything that is handed
//! to it; what happens when it does not is said by the laws on failure.
use crate::stream::error::StreamError;
use crate::stream::log::{
    header_bytes, lemma_records_bytes_push, log_bytes, payload_fits, record_of, records_bytes,
    LogRecordView,
};
use crate::stream::server::{ServerView, StreamTarget, WriterHandle};
use crate::stream::writer::{StreamMessage, WriterOpView, WriterView};
use crate::transfer::stream::{
    DataMsg, EndTaskStreamMsg, EndTaskStreamResponseMsg, FromStreamerMessage,
    ToStreamerMessageView,
};
use crate::{ConnectionId, JobId, JobTaskId};
use std::path::PathBuf;
use vstd::prelude::*;

verus! {

/// A writer together with what it has brought about: the bytes of its log, and what was sent
/// back to producers, in the order of sending.
pub struct LogRun {
    pub writer: WriterView,
    pub file: Seq<u8>,
    pub replies: Seq<(ConnectionId, ToStreamerMessageView)>,
}

impl LogRun {
    /// A writer that has just been started, and its log, which holds the header.
    pub open spec fn start(handle: WriterHandle) -> LogRun {
        LogRun { writer: WriterView::fresh(handle), file: header_bytes(), replies: Seq::empty() }
    }

    /// The run after the writer has taken `message` and the operation has succeeded.
    pub open spec fn step(self, message: StreamMessage) -> LogRun {
        let op = self.writer.op(message);
        LogRun {
            writer: self.writer.next(message),
            file: self.file + op.appended(),
            replies: match op.reply() {
                Some(reply) => self.replies.push(reply),
                None => self.replies,
            },
        }
    }

    /// The run after the writer has taken `messages`, one after the other.
    pub open spec fn run(self, messages: Seq<StreamMessage>) -> LogRun
        decreases messages.len(),
    {
        if messages.len() == 0 {
            self
        } else {
            self.run(messages.drop_last()).step(messages.last())
        }
    }
}

/// The records that a writer, starting as `writer`, appends while it takes `messages`: the
/// record of every message that it does not turn away, in the order of the messages.
pub open spec fn appended_records(writer: WriterView, messages: Seq<StreamMessage>) -> Seq<
    LogRecordView,
>
    decreases messages.len(),
{
    if messages.len() == 0 {
        Seq::empty()
    } else {
        let before = appended_records(writer, messages.drop_last());
        let at = (LogRun { writer, file: Seq::empty(), replies: Seq::empty() }).run(
            messages.drop_last(),
        ).writer;
        match messages.last() {
            StreamMessage::Message(m, _) => if at.refusal(m) is None {
                before.push(record_of(m))
            } else {
                before
            },
            StreamMessage::Close => before,
        }
    }
}

/// How a writer changes over a run depends neither on the log nor on the replies so far.
pub proof fn lemma_run_writer(a: LogRun, b: LogRun, messages: Seq<StreamMessage>)
    requires
        a.writer == b.writer,
    ensures
        a.run(messages).writer == b.run(messages).writer,
    decreases messages.len(),
{
    if messages.len() > 0 {
        lemma_run_writer(a, b, messages.drop_last());
    }
}

/// A log only grows, and by whole records: after any run it is what it was, followed by the
/// records of the messages that were not turned away, in the order of their arrival.
pub proof fn lemma_log_grows_by_records(start: LogRun, messages: Seq<StreamMessage>)
    ensures
        start.run(messages).file == start.file + records_bytes(
            appended_records(start.writer, messages),
        ),
    decreases messages.len(),
{
    if messages.len() > 0 {
        let front = messages.drop_last();
        lemma_log_grows_by_records(start, front);
        let bare = LogRun { writer: start.writer, file: Seq::empty(), replies: Seq::empty() };
        lemma_run_writer(start, bare, front);
        if let StreamMessage::Message(m, _) = messages.last() {
            lemma_records_bytes_push(appended_records(start.writer, front), record_of(m));
        }
    }
}

/// The log of a writer that was started and has taken `messages` is a well-formed log: the
/// header, then the records of the messages that were not turned away.
pub proof fn lemma_log_of_run(handle: WriterHandle, messages: Seq<StreamMessage>)
    ensures
        LogRun::start(handle).run(messages).file == log_bytes(
            appended_records(WriterView::fresh(handle), messages),
        ),
{
    lemma_log_grows_by_records(LogRun::start(handle), messages);
}

/// Over a run, tasks whose stream has ended stay ended.
pub proof fn lemma_ended_stays_ended(start: LogRun, messages: Seq<StreamMessage>, task: JobTaskId)
    requires
        start.writer.ended.contains(task),
    ensures
        start.run(messages).writer.ended.contains(task),
    decreases messages.len(),
{
    if messages.len() > 0 {
        lemma_ended_stays_ended(start, messages.drop_last(), task);
    }
}

/// Whether `message` is a `Start` of `task`.
pub open spec fn is_start_of(message: StreamMessage, task: JobTaskId) -> bool {
    message matches StreamMessage::Message(FromStreamerMessage::Start(m), _) && m.task == task
}

/// Whether `message` is output of `task` that fits into a record.
pub open spec fn is_data_of(message: StreamMessage, task: JobTaskId) -> bool {
    message matches StreamMessage::Message(FromStreamerMessage::Data(m), _) && m.task == task
        && payload_fits(m.data@.len())
}

/// Whether `message` is an `End` of `task`.
pub open spec fn is_end_of(message: StreamMessage, task: JobTaskId) -> bool {
    message matches StreamMessage::Message(FromStreamerMessage::End(m), _) && m.task == task
}

/// Whether `messages` is the whole stream of `task`: its `Start`, any number of `Data`, its
/// `End`.
pub open spec fn is_task_stream(messages: Seq<StreamMessage>, task: JobTaskId) -> bool {
    &&& messages.len() >= 2
    &&& is_start_of(messages[0], task)
    &&& is_end_of(messages.last(), task)
    &&& forall|i: int| 0 < i < messages.len() - 1 ==> is_data_of(#[trigger] messages[i], task)
}

/// The record of a message of a producer.
pub open spec fn message_record(message: StreamMessage) -> LogRecordView {
    match message {
        StreamMessage::Message(m, _) => record_of(m),
        StreamMessage::Close => arbitrary(),
    }
}

/// The connection over which a message of a producer came.
pub open spec fn message_source(message: StreamMessage) -> ConnectionId {
    match message {
        StreamMessage::Message(_, source) => source,
        StreamMessage::Close => arbitrary(),
    }
}

/// While the stream of a task has not reached its `End`, a fresh writer appends the record of
/// every message, stays as it was, and sends nothing.
proof fn lemma_task_stream_prefix(
    handle: WriterHandle,
    messages: Seq<StreamMessage>,
    task: JobTaskId,
    k: int,
)
    requires
        is_task_stream(messages, task),
        0 <= k < messages.len(),
    ensures
        LogRun::start(handle).run(messages.subrange(0, k)) == (LogRun {
            writer: WriterView::fresh(handle),
            file: log_bytes(
                messages.subrange(0, k).map_values(|m: StreamMessage| message_record(m)),
            ),
            replies: Seq::empty(),
        }),
    decreases k,
{
    let prefix = messages.subrange(0, k);
    let records = prefix.map_values(|m: StreamMessage| message_record(m));
    if k > 0 {
        lemma_task_stream_prefix(handle, messages, task, k - 1);
        let front = messages.subrange(0, k - 1);
        assert(prefix.drop_last() =~= front);
        let front_records = front.map_values(|m: StreamMessage| message_record(m));
        assert(records =~= front_records.push(message_record(messages[k - 1])));
        lemma_records_bytes_push(front_records, message_record(messages[k - 1]));
        assert(LogRun::start(handle).run(front).step(messages[k - 1]).file =~= log_bytes(records));
    }
}

/// The whole stream of one task, taken by a fresh writer, leaves a log that holds the header
/// and then one record for each message, in the order of sending, and brings about exactly one
/// reply: the acknowledgement of the end, sent to the connection over which the `End` came.
pub proof fn lemma_task_stream_is_logged(
    handle: WriterHandle,
    messages: Seq<StreamMessage>,
    task: JobTaskId,
)
    requires
        is_task_stream(messages, task),
    ensures
        LogRun::start(handle).run(messages).file == log_bytes(
            messages.map_values(|m: StreamMessage| message_record(m)),
        ),
        messages.map_values(|m: StreamMessage| message_record(m)).len() == messages.len(),
        LogRun::start(handle).run(messages).replies == seq![
            (
                message_source(messages.last()),
                ToStreamerMessageView::EndResponse(
                    EndTaskStreamResponseMsg { job: handle.job, task },
                ),
            ),
        ],
{
    let n = messages.len() - 1;
    lemma_task_stream_prefix(handle, messages, task, n);
    let front = messages.subrange(0, n);
    let front_records = front.map_values(|m: StreamMessage| message_record(m));
    let records = messages.map_values(|m: StreamMessage| message_record(m));
    assert(records =~= front_records.push(message_record(messages.last())));
    lemma_records_bytes_push(front_records, message_record(messages.last()));
    let end = LogRun::start(handle).run(messages);
}

/// Once the `End` of a task has been taken by a writer at work, output of that task is turned
/// away, whatever was taken in between: nothing is appended for it, and its producer is told.
/// As long as the writer is at work, it is told that the output came after the end.
pub proof fn lemma_data_after_end_is_rejected(
    start: LogRun,
    end: EndTaskStreamMsg,
    end_source: ConnectionId,
    between: Seq<StreamMessage>,
    data: DataMsg,
    source: ConnectionId,
)
    requires
        start.writer.state is Active,
        data.task == end.task,
    ensures
        ({
            let at = start.step(
                StreamMessage::Message(FromStreamerMessage::End(end), end_source),
            ).run(between);
            let late = StreamMessage::Message(FromStreamerMessage::Data(data), source);
            &&& at.writer.op(late) matches WriterOpView::Reject { source: to, error }
            &&& to == source
            &&& at.writer.state is Active ==> error == (StreamError::DataAfterEnd {
                job: start.writer.handle.job,
                task: data.task,
            })
            &&& at.step(late).file == at.file
            &&& at.step(late).writer == at.writer
        }),
{
    let ended = start.step(StreamMessage::Message(FromStreamerMessage::End(end), end_source));
    lemma_ended_stays_ended(ended, between, end.task);
    lemma_handle_stays(ended, between);
    let at = ended.run(between);
    let late = StreamMessage::Message(FromStreamerMessage::Data(data), source);
}

/// Over a run, a writer keeps its handle.
pub proof fn lemma_handle_stays(start: LogRun, messages: Seq<StreamMessage>)
    ensures
        start.run(messages).writer.handle == start.writer.handle,
    decreases messages.len(),
{
    if messages.len() > 0 {
        lemma_handle_stays(start, messages.drop_last());
    }
}

/// A writer whose file has failed stays failed, appends nothing more, and turns every message
/// away by telling its producer that the stream of the job has failed.
pub proof fn lemma_failed_writer_rejects(
    writer: WriterView,
    between: Seq<StreamMessage>,
    message: FromStreamerMessage,
    source: ConnectionId,
)
    requires
        writer.state is Active,
    ensures
        ({
            let failed = LogRun {
                writer: writer.fail(),
                file: Seq::empty(),
                replies: Seq::empty(),
            };
            let at = failed.run(between);
            &&& at.writer == writer.fail()
            &&& at.file == failed.file
            &&& at.writer.op(StreamMessage::Message(message, source)) == (WriterOpView::Reject {
                source,
                error: StreamError::JobStreamErrored(writer.handle.job),
            })
        }),
    decreases between.len(),
{
    let failed = LogRun { writer: writer.fail(), file: Seq::empty(), replies: Seq::empty() };
    if between.len() > 0 {
        match between.last() {
            StreamMessage::Message(m, s) => {
                lemma_failed_writer_rejects(writer, between.drop_last(), m, s);
            },
            StreamMessage::Close => {
                lemma_failed_writer_rejects(writer, between.drop_last(), message, source);
            },
        }
    }
}

/// What can happen to the registry.
pub enum ServerEvent {
    /// The scheduler registers a job with a path.
    Register(JobId, PathBuf),
    /// The scheduler unregisters a job.
    Unregister(JobId),
    /// A message for a job arrives and its writer is looked up.
    Lookup(JobId),
    /// A writer reports that it has finished.
    WriterFinished(WriterHandle),
    /// A writer reports that its file has failed.
    WriterFailed(WriterHandle),
}

/// The registry after `event`.
pub open spec fn server_step(state: ServerView, event: ServerEvent) -> ServerView {
    match event {
        ServerEvent::Register(job, path) => state.register(job, path),
        ServerEvent::Unregister(job) => state.unregister(job),
        ServerEvent::Lookup(job) => state.after_lookup(job),
        ServerEvent::WriterFinished(handle) => state.writer_finished(handle),
        ServerEvent::WriterFailed(handle) => state.writer_failed(handle),
    }
}

/// The registry after `events`, one after the other.
pub open spec fn server_run(state: ServerView, events: Seq<ServerEvent>) -> ServerView
    decreases events.len(),
{
    if events.len() == 0 {
        state
    } else {
        server_step(server_run(state, events.drop_last()), events.last())
    }
}

/// Whether `events` registers `job` nowhere.
pub open spec fn never_registers(events: Seq<ServerEvent>, job: JobId) -> bool {
    forall|i: int|
        0 <= i < events.len() ==> !((#[trigger] events[i]) matches ServerEvent::Register(j, _) && j
            == job)
}

/// Every step keeps the registry well-formed.
pub proof fn lemma_server_step_wf(state: ServerView, event: ServerEvent)
    requires
        state.wf(),
    ensures
        server_step(state, event).wf(),
{
    let after = server_step(state, event);
    assert forall|job: JobId| #[trigger]
        after.streams.contains_key(job) implies after.streams[job].job == job && after.streams[job].serial < after.next_serial by {
        // a writer on record was on record before, or has just been made
        assert(state.streams.contains_key(job) || event == ServerEvent::Lookup(job));
    }
    assert forall|job: JobId| #[trigger]
        after.failed.contains(job) implies !after.streams.contains_key(job) by {
        // a failure on record was on record before, or has just been put there
        assert(state.failed.contains(job) || (event matches ServerEvent::WriterFailed(h) && h.job
            == job));
    }
}

/// Every run keeps the registry well-formed; a server that has just been started is.
pub proof fn lemma_server_run_wf(state: ServerView, events: Seq<ServerEvent>)
    requires
        state.wf(),
    ensures
        ServerView::empty().wf(),
        server_run(state, events).wf(),
    decreases events.len(),
{
    if events.len() > 0 {
        lemma_server_run_wf(state, events.drop_last());
        lemma_server_step_wf(server_run(state, events.drop_last()), events.last());
    }
}

/// Registering a job a second time fails and changes nothing: the path of the first
/// registration stays on record.
pub proof fn lemma_second_registration_is_refused(
    state: ServerView,
    job: JobId,
    first: PathBuf,
    second: PathBuf,
)
    ensures
        ({
            let once = state.register(job, first);
            &&& once.register_result(job) == Err::<(), StreamError>(
                StreamError::AlreadyRegistered(job),
            )
            &&& once.register(job, second) == once
            &&& state.register_result(job) is Ok ==> once.registrations[job] == first
        }),
{
}

/// A message for a job that was never registered is turned away as not registered, whatever
/// else has happened to the server since it was started, and no writer is made for it.
pub proof fn lemma_unregistered_job_is_refused(events: Seq<ServerEvent>, job: JobId)
    requires
        never_registers(events, job),
    ensures
        ({
            let state = server_run(ServerView::empty(), events);
            &&& state.lookup(job) == Err::<StreamTarget, StreamError>(
                StreamError::NotRegistered(job),
            )
            &&& state.after_lookup(job) == state
            &&& !state.streams.contains_key(job)
            &&& !state.registrations.contains_key(job)
            &&& !state.failed.contains(job)
        }),
    decreases events.len(),
{
    if events.len() > 0 {
        let front = events.drop_last();
        assert(never_registers(front, job)) by {
            assert forall|i: int| 0 <= i < front.len() implies front[i]
                == #[trigger] events[i] by {}
        }
        lemma_unregistered_job_is_refused(front, job);
    }
}

/// Once the writer of a job has failed, messages for the job are turned away as failed, and no
/// writer is made for it, until the job is registered anew.
pub proof fn lemma_failed_job_is_refused(
    state: ServerView,
    handle: WriterHandle,
    events: Seq<ServerEvent>,
)
    requires
        state.wf(),
        state.is_active(handle),
        never_registers(events, handle.job),
    ensures
        ({
            let after = server_run(state.writer_failed(handle), events);
            &&& after.lookup(handle.job) == Err::<StreamTarget, StreamError>(
                StreamError::JobStreamErrored(handle.job),
            )
            &&& after.after_lookup(handle.job) == after
            &&& after.failed.contains(handle.job)
            &&& !after.streams.contains_key(handle.job)
        }),
    decreases events.len(),
{
    if events.len() > 0 {
        let front = events.drop_last();
        assert(never_registers(front, handle.job)) by {
            assert forall|i: int| 0 <= i < front.len() implies front[i]
                == #[trigger] events[i] by {}
        }
        lemma_failed_job_is_refused(state, handle, front);
    }
}

/// A job that has failed and is registered anew streams again, through a new writer.
pub proof fn lemma_registration_revives_failed_job(state: ServerView, job: JobId, path: PathBuf)
    requires
        state.wf(),
        state.failed.contains(job),
        !state.registrations.contains_key(job),
        state.next_serial < u64::MAX,
    ensures
        state.register(job, path).lookup(job) == Ok::<StreamTarget, StreamError>(
            StreamTarget {
                handle: WriterHandle { job, serial: state.next_serial as u64 },
                created: Some(path),
            },
        ),
{
}

/// Unregistering a job leaves every writer at work, the one of the job too: its messages go on
/// reaching it. A job without a writer takes no first message once it is unregistered.
pub proof fn lemma_unregister_keeps_writers(state: ServerView, job: JobId)
    ensures
        state.unregister(job).streams == state.streams,
        state.streams.contains_key(job) ==> state.unregister(job).lookup(job) == Ok::<
            StreamTarget,
            StreamError,
        >(StreamTarget { handle: state.streams[job], created: None }),
        !state.streams.contains_key(job) ==> state.unregister(job).lookup(job) is Err
            && state.unregister(job).after_lookup(job) == state.unregister(job),
        !state.streams.contains_key(job) && !state.failed.contains(job) ==> state.unregister(
            job,
        ).lookup(job) == Err::<StreamTarget, StreamError>(StreamError::NotRegistered(job)),
{
}

/// A job has one writer at a time: the message that follows the one for which the writer was
/// made finds that writer, and makes none.
pub proof fn lemma_one_writer_per_job(state: ServerView, job: JobId)
    requires
        state.lookup(job) is Ok,
    ensures
        state.after_lookup(job).lookup(job) == Ok::<StreamTarget, StreamError>(
            StreamTarget { handle: state.lookup(job)->Ok_0.handle, created: None },
        ),
        state.after_lookup(job).after_lookup(job) == state.after_lookup(job),
{
}

/// A writer that is made gets a handle that no writer at work has, and that names its job.
pub proof fn lemma_new_handle_is_fresh(state: ServerView, job: JobId)
    requires
        state.wf(),
        state.lookup(job) matches Ok(target) && target.created is Some,
    ensures
        state.lookup(job)->Ok_0.handle.job == job,
        forall|other: JobId| #[trigger]
            state.streams.contains_key(other) ==> state.streams[other] != state.lookup(
                job,
            )->Ok_0.handle,
{
}

/// Serial numbers are used up and never given back.
pub proof fn lemma_serials_grow(state: ServerView, events: Seq<ServerEvent>)
    ensures
        server_run(state, events).next_serial >= state.next_serial,
    decreases events.len(),
{
    if events.len() > 0 {
        lemma_serials_grow(state, events.drop_last());
    }
}

/// A handle names one writer for all time: a writer that is made later, for whatever job and
/// after whatever has happened in between, gets another handle.
pub proof fn lemma_handles_are_never_reused(
    state: ServerView,
    first: JobId,
    events: Seq<ServerEvent>,
    second: JobId,
)
    requires
        state.lookup(first) matches Ok(target) && target.created is Some,
        server_run(state.after_lookup(first), events).lookup(second) matches Ok(target)
            && target.created is Some,
    ensures
        state.lookup(first)->Ok_0.handle != server_run(
            state.after_lookup(first),
            events,
        ).lookup(second)->Ok_0.handle,
{
    lemma_serials_grow(state.after_lookup(first), events);
}

/// The server as a whole: the registry, and the run of every writer that it has made.
pub struct SystemView {
    pub server: ServerView,
    pub logs: Map<WriterHandle, LogRun>,
}

impl SystemView {
    /// The server after a message has arrived over `source`: the registry finds or makes the
    /// writer of the message's job, and that writer takes the message. A message for which
    /// there is no writer changes nothing.
    pub open spec fn deliver(
        self,
        message: FromStreamerMessage,
        source: ConnectionId,
    ) -> SystemView {
        match self.server.lookup(message.spec_job()) {
            Ok(target) => {
                let log = if target.created is Some {
                    LogRun::start(target.handle)
                } else {
                    self.logs[target.handle]
                };
                SystemView {
                    server: self.server.after_lookup(message.spec_job()),
                    logs: self.logs.insert(
                        target.handle,
                        log.step(StreamMessage::Message(message, source)),
                    ),
                }
            },
            Err(_) => self,
        }
    }

    /// The server after the scheduler has unregistered `job`: the registry forgets the path of
    /// the job, and no writer is touched.
    pub open spec fn unregister(self, job: JobId) -> SystemView {
        SystemView { server: self.server.unregister(job), ..self }
    }

    /// The server after `messages` have arrived, one after the other.
    pub open spec fn deliver_all(
        self,
        messages: Seq<(FromStreamerMessage, ConnectionId)>,
    ) -> SystemView
        decreases messages.len(),
    {
        if messages.len() == 0 {
            self
        } else {
            self.deliver_all(messages.drop_last()).deliver(messages.last().0, messages.last().1)
        }
    }
}

/// The messages of `job` among `messages`, in their order.
pub open spec fn job_messages(
    messages: Seq<(FromStreamerMessage, ConnectionId)>,
    job: JobId,
) -> Seq<StreamMessage>
    decreases messages.len(),
{
    if messages.len() == 0 {
        Seq::empty()
    } else {
        let front = job_messages(messages.drop_last(), job);
        if messages.last().0.spec_job() == job {
            front.push(StreamMessage::Message(messages.last().0, messages.last().1))
        } else {
            front
        }
    }
}

/// Jobs do not mix. However the messages of different jobs are interleaved on their way in,
/// the writer of a registered job takes exactly the messages of its job, in their order: its
/// log is the one it would have written had no other job streamed at all.
pub proof fn lemma_jobs_do_not_mix(
    system: SystemView,
    messages: Seq<(FromStreamerMessage, ConnectionId)>,
    job: JobId,
)
    requires
        system.server.wf(),
        system.server.registrations.contains_key(job),
        !system.server.failed.contains(job),
        !system.server.streams.contains_key(job),
        system.server.next_serial + messages.len() <= u64::MAX,
    ensures
        ({
            let end = system.deliver_all(messages);
            let own = job_messages(messages, job);
            &&& end.server.wf()
            &&& end.server.registrations.contains_key(job)
            &&& !end.server.failed.contains(job)
            &&& end.server.next_serial <= system.server.next_serial + messages.len()
            &&& own.len() == 0 ==> !end.server.streams.contains_key(job)
            &&& own.len() > 0 ==> {
                &&& end.server.streams.contains_key(job)
                &&& end.logs.contains_key(end.server.streams[job])
                &&& end.logs[end.server.streams[job]] == LogRun::start(end.server.streams[job]).run(
                    own,
                )
            }
        }),
    decreases messages.len(),
{
    if messages.len() > 0 {
        let front = messages.drop_last();
        lemma_jobs_do_not_mix(system, front, job);
        let mid = system.deliver_all(front);
        let (message, source) = messages.last();
        let end = mid.deliver(message, source);
        let own_front = job_messages(front, job);
        let own = job_messages(messages, job);
        lemma_server_step_wf(mid.server, ServerEvent::Lookup(message.spec_job()));
        if message.spec_job() == job {
            // the writer of the job takes the message, after it was made if need be
            assert(own.drop_last() =~= own_front);
            let target = mid.server.lookup(job)->Ok_0;
            if own_front.len() == 0 {
                assert(LogRun::start(target.handle).run(own_front) == LogRun::start(target.handle));
            }
        } else if mid.server.lookup(message.spec_job()) is Ok {
            // the message goes to a writer of another job, whose handle names that job
            assert(mid.server.streams.contains_key(job) ==> mid.server.streams[job].job == job);
        }
    }
}

/// Where every message is a message of `job`, the messages of `job` are all of them.
pub proof fn lemma_job_messages_of_one_job(
    messages: Seq<(FromStreamerMessage, ConnectionId)>,
    job: JobId,
)
    requires
        forall|i: int| 0 <= i < messages.len() ==> (#[trigger] messages[i]).0.spec_job() == job,
    ensures
        job_messages(messages, job) == messages.map_values(
            |m: (FromStreamerMessage, ConnectionId)| StreamMessage::Message(m.0, m.1),
        ),
    decreases messages.len(),
{
    if messages.len() > 0 {
        let front = messages.drop_last();
        assert forall|i: int| 0 <= i < front.len() implies front[i] == #[trigger] messages[i] by {}
        lemma_job_messages_of_one_job(front, job);
    }
}

/// A job that is registered, and whose task sends its whole stream, ends up with a log of the
/// header and one record for each message, in the order of sending, whatever other jobs send
/// in between; and the producer gets exactly one reply, the acknowledgement of the end.
pub proof fn lemma_registered_job_logs_task_stream(
    system: SystemView,
    messages: Seq<(FromStreamerMessage, ConnectionId)>,
    job: JobId,
    task: JobTaskId,
)
    requires
        system.server.wf(),
        system.server.registrations.contains_key(job),
        !system.server.failed.contains(job),
        !system.server.streams.contains_key(job),
        system.server.next_serial + messages.len() <= u64::MAX,
        is_task_stream(job_messages(messages, job), task),
    ensures
        ({
            let end = system.deliver_all(messages);
            let own = job_messages(messages, job);
            let handle = end.server.streams[job];
            &&& end.server.streams.contains_key(job)
            &&& handle.job == job
            &&& end.logs[handle].file == log_bytes(
                own.map_values(|m: StreamMessage| message_record(m)),
            )
            &&& end.logs[handle].replies == seq![
                (
                    message_source(own.last()),
                    ToStreamerMessageView::EndResponse(EndTaskStreamResponseMsg { job, task }),
                ),
            ]
        }),
{
    lemma_jobs_do_not_mix(system, messages, job);
    let end = system.deliver_all(messages);
    lemma_task_stream_is_logged(end.server.streams[job], job_messages(messages, job), task);
}

/// Unregistering a job does not come between its writer and its messages: a message of a job
/// that has a writer does to the logs what it would have done had the job stayed registered.
/// A message of a job without a writer, once the job is unregistered, changes nothing.
pub proof fn lemma_unregistered_job_keeps_streaming(
    system: SystemView,
    message: FromStreamerMessage,
    source: ConnectionId,
)
    ensures
        ({
            let job = message.spec_job();
            let after = system.unregister(job);
            &&& system.server.streams.contains_key(job) ==> after.deliver(message, source).logs
                == system.deliver(message, source).logs && after.deliver(
                message,
                source,
            ).server.streams == system.deliver(message, source).server.streams
            &&& !system.server.streams.contains_key(job) ==> after.deliver(message, source)
                == after
        }),
{
}

} // verus!
