//! What a connection handler decides: how the bytes that arrive fall into frames, where a
//! message goes, and how the connection ends.
//!
//! A handler runs a receiving and a sending side at once. The receiving side collects bytes,
//! cuts frames out of them, has their payloads opened and turned into messages, and forwards
//! each message to the writer of its job. The sending side puts replies into frames. Reading,
//! writing, opening and sealing are the caller's part.
use crate::stream::frame::{decode_frame, decode_frame_spec, FrameError, FrameView};
use crate::stream::server::{StreamServerState, StreamTarget};
use crate::stream::writer::StreamMessage;
use crate::transfer::stream::{FromStreamerMessage, ToStreamerMessage, ToStreamerMessageView};
use crate::ConnectionId;
use vstd::prelude::*;

verus! {

/// The bytes that a connection has received and not yet used.
pub struct FrameBuffer {
    pending: Vec<u8>,
    max_len: u32,
}

impl View for FrameBuffer {
    type V = Seq<u8>;

    closed spec fn view(&self) -> Seq<u8> {
        self.pending@
    }
}

impl FrameBuffer {
    /// The longest payload that the buffer hands out.
    pub closed spec fn max_len(&self) -> u32 {
        self.max_len
    }

    /// An empty buffer that accepts payloads of up to `max_len` bytes.
    pub fn new(max_len: u32) -> (buffer: FrameBuffer)
        ensures
            buffer@ == Seq::<u8>::empty(),
            buffer.max_len() == max_len,
    {
        FrameBuffer { pending: Vec::new(), max_len }
    }

    /// The number of bytes received and not yet used.
    pub fn len(&self) -> (n: usize)
        ensures
            n == self@.len(),
    {
        self.pending.len()
    }

    /// Adds bytes that have just been received.
    pub fn extend(&mut self, received: &[u8])
        ensures
            final(self)@ == old(self)@ + received@,
            final(self).max_len() == old(self).max_len(),
    {
        self.pending.extend_from_slice(received);
    }

    /// Takes the payload of the first frame out of the buffer, if the frame has arrived
    /// completely; `Ok(None)` says that it has not, and leaves the buffer as it is. A frame
    /// that announces more than the buffer accepts is an error, which ends the connection.
    pub fn next_frame(&mut self) -> (result: Result<Option<Vec<u8>>, FrameError>)
        ensures
            final(self).max_len() == old(self).max_len(),
            match decode_frame_spec(old(self)@, old(self).max_len()) {
                FrameView::Incomplete => result == Ok::<Option<Vec<u8>>, FrameError>(None)
                    && final(self)@ == old(self)@,
                FrameView::Complete { payload, taken } => result matches Ok(Some(p)) && p@
                    == payload && final(self)@ == old(self)@.skip(taken as int),
                FrameView::TooLarge { announced } => result == Err::<
                    Option<Vec<u8>>,
                    FrameError,
                >(FrameError::FrameTooLarge { announced }) && final(self)@ == old(self)@,
            },
    {
        match decode_frame(self.pending.as_slice(), self.max_len) {
            Err(e) => Err(e),
            Ok(None) => Ok(None),
            Ok(Some((payload, taken))) => {
                let rest = self.pending.split_off(taken);
                self.pending = rest;
                Ok(Some(payload))
            },
        }
    }
}

/// What the receiving side does with a message.
#[derive(Debug, Clone, PartialEq, Eq)]
pub enum ReceiveAction {
    /// Put `message` into the queue of the writer `target.handle`, waiting while the queue is
    /// full. If the writer was made for this message, start it first.
    Forward { target: StreamTarget, message: StreamMessage },
    /// Send `reply` back over the connection; the message goes nowhere.
    Refuse { reply: ToStreamerMessage },
}

/// Decides where `message`, which came over `source`, goes: to the writer of its job, which is
/// made if the job is registered and has none; or nowhere, if the job takes no messages, in
/// which case the producer is told why.
pub fn route_message(
    server: &mut StreamServerState,
    message: FromStreamerMessage,
    source: ConnectionId,
) -> (action: ReceiveAction)
    requires
        old(server).wf(),
    ensures
        final(server).wf(),
        final(server)@ == old(server)@.after_lookup(message.spec_job()),
        match old(server)@.lookup(message.spec_job()) {
            Ok(target) => action == (ReceiveAction::Forward {
                target,
                message: StreamMessage::Message(message, source),
            }),
            Err(e) => action matches ReceiveAction::Refuse { reply } && reply@
                == ToStreamerMessageView::Error(e.message_spec()),
        },
{
    match server.get_stream(message.job()) {
        Ok(target) => ReceiveAction::Forward {
            target,
            message: StreamMessage::Message(message, source),
        },
        Err(e) => ReceiveAction::Refuse { reply: ToStreamerMessage::Error(e.message()) },
    }
}

/// The two sides of a connection handler.
#[derive(Debug, Clone, Copy, PartialEq, Eq, Structural)]
pub enum ConnectionSide {
    Receive,
    Send,
}

/// How a connection ends.
#[derive(Debug, Clone, Copy, PartialEq, Eq, Structural)]
pub struct ConnectionEnd {
    /// The side that is still running and is to be cancelled.
    pub cancel: ConnectionSide,
    /// Whether the connection ended without an error.
    pub clean: bool,
}

/// Ends a connection when one of its sides has stopped: whichever side stops first, with or
/// without an error, ends the connection, and the other side is cancelled.
pub fn end_connection(stopped: ConnectionSide, failed: bool) -> (end: ConnectionEnd)
    ensures
        end.cancel != stopped,
        end.clean == !failed,
{
    let cancel = match stopped {
        ConnectionSide::Receive => ConnectionSide::Send,
        ConnectionSide::Send => ConnectionSide::Receive,
    };
    ConnectionEnd { cancel, clean: !failed }
}

} // verus!
