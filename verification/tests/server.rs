use hyperqueue::stream::connection::{
    end_connection, route_message, ConnectionEnd, ConnectionSide, ReceiveAction,
};
use hyperqueue::stream::control::{ControlAction, StreamServerControlMessage};
use hyperqueue::stream::error::StreamError;
use hyperqueue::stream::server::{StreamServerState, StreamTarget, WriterHandle};
use hyperqueue::stream::writer::StreamMessage;
use hyperqueue::transfer::stream::{
    DataMsg, EndTaskStreamMsg, FromStreamerMessage, StartTaskStreamMsg, ToStreamerMessage,
};
use std::path::PathBuf;

fn path(name: &str) -> PathBuf {
    PathBuf::from(name)
}

fn data(job: u32, task: u32, bytes: &[u8]) -> FromStreamerMessage {
    FromStreamerMessage::Data(DataMsg { job, task, channel: 0, data: bytes.to_vec() })
}

#[test]
fn new_server_knows_nothing() {
    let server = StreamServerState::new();
    assert!(!server.is_registered(1));
    assert_eq!(server.registered_path(1), None);
    assert_eq!(server.active_writer(1), None);
    assert!(!server.has_failed(1));
}

#[test]
fn registration_is_recorded() {
    let mut server = StreamServerState::new();
    assert_eq!(server.register_stream(3, path("/logs/3.hqlog")), Ok(()));
    assert!(server.is_registered(3));
    assert_eq!(server.registered_path(3), Some(&path("/logs/3.hqlog")));
    assert!(!server.is_registered(4));
    assert_eq!(server.active_writer(3), None);
}

#[test]
fn second_registration_fails_and_keeps_the_first_path() {
    let mut server = StreamServerState::new();
    assert_eq!(server.register_stream(3, path("first")), Ok(()));
    assert_eq!(
        server.register_stream(3, path("second")),
        Err(StreamError::AlreadyRegistered(3))
    );
    assert_eq!(server.registered_path(3), Some(&path("first")));
    assert_eq!(
        server.handle_control(StreamServerControlMessage::RegisterStream(3, path("third"))),
        Err(StreamError::AlreadyRegistered(3))
    );
    assert_eq!(server.registered_path(3), Some(&path("first")));
}

#[test]
fn unregistering_is_idempotent() {
    let mut server = StreamServerState::new();
    server.unregister_stream(9);
    assert!(!server.is_registered(9));
    server.register_stream(9, path("nine")).unwrap();
    server.unregister_stream(9);
    server.unregister_stream(9);
    assert!(!server.is_registered(9));
    assert_eq!(server.register_stream(9, path("again")), Ok(()));
    assert_eq!(server.registered_path(9), Some(&path("again")));
}

#[test]
fn message_for_unregistered_job_is_refused_and_makes_no_writer() {
    let mut server = StreamServerState::new();
    server.register_stream(1, path("one")).unwrap();
    assert_eq!(server.get_stream(2), Err(StreamError::NotRegistered(2)));
    assert_eq!(server.active_writer(2), None);
    let action = route_message(&mut server, data(2, 0, b"lost?"), 77);
    assert_eq!(
        action,
        ReceiveAction::Refuse {
            reply: ToStreamerMessage::Error("Job 2 is not registered for streaming".to_string())
        }
    );
    assert_eq!(server.active_writer(2), None);
    assert_eq!(server.active_writer(1), None);
}

#[test]
fn first_message_makes_the_writer_and_later_ones_share_it() {
    let mut server = StreamServerState::new();
    server.register_stream(5, path("five")).unwrap();
    let first = server.get_stream(5).unwrap();
    assert_eq!(
        first,
        StreamTarget { handle: WriterHandle { job: 5, serial: 0 }, created: Some(path("five")) }
    );
    let second = server.get_stream(5).unwrap();
    assert_eq!(second, StreamTarget { handle: first.handle, created: None });
    assert_eq!(server.active_writer(5), Some(first.handle));
}

#[test]
fn writers_get_distinct_handles() {
    let mut server = StreamServerState::new();
    server.register_stream(1, path("a")).unwrap();
    server.register_stream(2, path("b")).unwrap();
    let a = server.get_stream(1).unwrap().handle;
    let b = server.get_stream(2).unwrap().handle;
    assert_eq!(a, WriterHandle { job: 1, serial: 0 });
    assert_eq!(b, WriterHandle { job: 2, serial: 1 });
    assert!(server.writer_finished(a));
    let again = server.get_stream(1).unwrap();
    assert_eq!(again.handle, WriterHandle { job: 1, serial: 2 });
    assert_eq!(again.created, Some(path("a")));
}

#[test]
fn route_forwards_to_the_writer_of_the_job() {
    let mut server = StreamServerState::new();
    server.register_stream(4, path("four")).unwrap();
    let message = FromStreamerMessage::Start(StartTaskStreamMsg { job: 4, task: 1 });
    let action = route_message(&mut server, message.clone(), 11);
    assert_eq!(
        action,
        ReceiveAction::Forward {
            target: StreamTarget {
                handle: WriterHandle { job: 4, serial: 0 },
                created: Some(path("four")),
            },
            message: StreamMessage::Message(message, 11),
        }
    );
    let message = FromStreamerMessage::End(EndTaskStreamMsg { job: 4, task: 1 });
    let action = route_message(&mut server, message.clone(), 12);
    assert_eq!(
        action,
        ReceiveAction::Forward {
            target: StreamTarget { handle: WriterHandle { job: 4, serial: 0 }, created: None },
            message: StreamMessage::Message(message, 12),
        }
    );
}

#[test]
fn finished_writer_leaves_and_is_made_again_on_demand() {
    let mut server = StreamServerState::new();
    server.register_stream(1, path("a")).unwrap();
    let handle = server.get_stream(1).unwrap().handle;
    assert!(server.writer_finished(handle));
    assert_eq!(server.active_writer(1), None);
    assert!(!server.has_failed(1));
    assert!(!server.writer_finished(handle));
    let next = server.get_stream(1).unwrap();
    assert_eq!(next.created, Some(path("a")));
    assert_ne!(next.handle, handle);
}

#[test]
fn finished_writer_of_unregistered_job_is_not_made_again() {
    let mut server = StreamServerState::new();
    server.register_stream(1, path("a")).unwrap();
    let handle = server.get_stream(1).unwrap().handle;
    server.unregister_stream(1);
    assert!(server.writer_finished(handle));
    assert_eq!(server.get_stream(1), Err(StreamError::NotRegistered(1)));
}

#[test]
fn failed_writer_marks_the_job_until_it_is_registered_again() {
    let mut server = StreamServerState::new();
    server.register_stream(1, path("a")).unwrap();
    server.register_stream(2, path("b")).unwrap();
    let handle = server.get_stream(1).unwrap().handle;
    let other = server.get_stream(2).unwrap().handle;
    assert!(server.writer_failed(handle));
    assert!(server.has_failed(1));
    assert_eq!(server.active_writer(1), None);
    assert_eq!(server.get_stream(1), Err(StreamError::JobStreamErrored(1)));
    assert_eq!(
        route_message(&mut server, data(1, 0, b"more"), 3),
        ReceiveAction::Refuse {
            reply: ToStreamerMessage::Error("Stream of job 1 has failed".to_string())
        }
    );
    assert_eq!(server.active_writer(1), None);
    // the other job is not touched
    assert!(!server.has_failed(2));
    assert_eq!(server.get_stream(2), Ok(StreamTarget { handle: other, created: None }));
    // still registered, so registering again is refused, and the job stays failed
    assert_eq!(server.register_stream(1, path("c")), Err(StreamError::AlreadyRegistered(1)));
    assert_eq!(server.get_stream(1), Err(StreamError::JobStreamErrored(1)));
    // unregistering alone does not revive the job
    server.unregister_stream(1);
    assert_eq!(server.get_stream(1), Err(StreamError::JobStreamErrored(1)));
    // registering anew does
    assert_eq!(server.register_stream(1, path("c")), Ok(()));
    assert!(!server.has_failed(1));
    let revived = server.get_stream(1).unwrap();
    assert_eq!(revived.created, Some(path("c")));
    assert_ne!(revived.handle, handle);
}

#[test]
fn stale_reports_change_nothing() {
    let mut server = StreamServerState::new();
    server.register_stream(1, path("a")).unwrap();
    let old = server.get_stream(1).unwrap().handle;
    assert!(server.writer_finished(old));
    let new = server.get_stream(1).unwrap().handle;
    assert!(!server.writer_failed(old));
    assert!(!server.has_failed(1));
    assert_eq!(server.active_writer(1), Some(new));
    assert!(!server.writer_finished(WriterHandle { job: 9, serial: 0 }));
    assert!(!server.writer_failed(WriterHandle { job: 9, serial: 0 }));
    assert!(!server.has_failed(9));
}

#[test]
fn unregistering_leaves_the_active_writer_alone() {
    let mut server = StreamServerState::new();
    server.register_stream(1, path("a")).unwrap();
    server.register_stream(2, path("b")).unwrap();
    let handle = server.get_stream(1).unwrap().handle;
    server.unregister_stream(1);
    server.unregister_stream(2);
    // messages of the job with a writer still reach it
    assert_eq!(server.active_writer(1), Some(handle));
    assert_eq!(server.get_stream(1), Ok(StreamTarget { handle, created: None }));
    // a first message of the job without a writer is refused
    assert_eq!(server.get_stream(2), Err(StreamError::NotRegistered(2)));
    assert_eq!(server.active_writer(2), None);
}

#[test]
fn control_commands() {
    let mut server = StreamServerState::new();
    assert_eq!(
        server.handle_control(StreamServerControlMessage::RegisterStream(1, path("a"))),
        Ok(ControlAction::Done)
    );
    assert!(server.is_registered(1));
    assert_eq!(
        server.handle_control(StreamServerControlMessage::AddConnection(42)),
        Ok(ControlAction::ServeConnection(42))
    );
    assert!(server.is_registered(1));
    assert_eq!(
        server.handle_control(StreamServerControlMessage::UnregisterStream(1)),
        Ok(ControlAction::Done)
    );
    assert!(!server.is_registered(1));
    assert_eq!(
        server.handle_control(StreamServerControlMessage::UnregisterStream(1)),
        Ok(ControlAction::Done)
    );
}

#[test]
fn first_side_to_stop_ends_the_connection() {
    assert_eq!(
        end_connection(ConnectionSide::Receive, false),
        ConnectionEnd { cancel: ConnectionSide::Send, clean: true }
    );
    assert_eq!(
        end_connection(ConnectionSide::Receive, true),
        ConnectionEnd { cancel: ConnectionSide::Send, clean: false }
    );
    assert_eq!(
        end_connection(ConnectionSide::Send, true),
        ConnectionEnd { cancel: ConnectionSide::Receive, clean: false }
    );
    assert_eq!(
        end_connection(ConnectionSide::Send, false),
        ConnectionEnd { cancel: ConnectionSide::Receive, clean: true }
    );
}
