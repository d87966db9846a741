//! Decision logic of the two message pumps. The reader pump turns each
//! inbound socket event into an action (dispatch lines, keep reading, or
//! stop); the writer pump reacts to each send attempt. The surrounding
//! runtime performs the socket work and hands the outcomes back here.

use vstd::prelude::*;

use crate::framing::{frame_lines_spec, lines_view, protocol_lines};
use crate::state::{disconnect_transition, ConnectionState};

verus! {

/// One event observed by the reader pump on the inbound stream.
pub enum InboundEvent {
    /// A text frame with its payload.
    Text(String),
    /// A binary frame with its raw bytes.
    Binary(Vec<u8>),
    /// The peer closed the stream in an orderly way.
    Close,
    /// A keep-alive probe; handled by the socket layer.
    Ping,
    /// The answer to a keep-alive probe.
    Pong,
    /// A low-level raw frame, never surfaced as a message.
    Frame,
    /// A stream-level failure: a malformed frame or an I/O error.
    StreamError,
}

/// What the reader pump does next after one inbound event.
#[derive(Debug, PartialEq, Eq)]
pub enum ReaderStep {
    /// Forward these lines to the dispatcher, in order, then keep reading.
    Dispatch(Vec<String>),
    /// Nothing to forward; keep reading.
    Continue,
    /// Leave the read loop; the disconnect protocol follows.
    Stop,
}

/// What `String::from_utf8` returns on these bytes: the decoded text when
/// they are valid UTF-8, nothing otherwise. It depends on the bytes alone.
pub uninterp spec fn utf8_decode(bytes: Seq<u8>) -> Option<Seq<char>>;

/// Relies on `String::from_utf8`: whether the bytes decode, and to what
/// text, is a function of the bytes alone.
#[verifier::external_body]
fn decode_utf8(bytes: Vec<u8>) -> (r: Option<String>)
    ensures
        match r {
            Some(t) => utf8_decode(bytes@) == Some(t@),
            None => utf8_decode(bytes@) is None,
        },
{
    String::from_utf8(bytes).ok()
}

/// Decide the reader pump's reaction to one inbound event: a text frame is
/// framed into protocol lines and dispatched; a binary frame likewise when
/// its bytes are valid UTF-8 and is silently discarded otherwise; a close
/// frame or a stream failure ends the loop; control frames are ignored.
pub fn reader_on_event(event: InboundEvent) -> (step: ReaderStep)
    ensures
        match event {
            InboundEvent::Text(t) => step matches ReaderStep::Dispatch(lines) && lines_view(
                lines@,
            ) == frame_lines_spec(t@),
            InboundEvent::Binary(b) => match utf8_decode(b@) {
                Some(t) => step matches ReaderStep::Dispatch(lines) && lines_view(lines@)
                    == frame_lines_spec(t),
                None => step == ReaderStep::Continue,
            },
            InboundEvent::Close => step == ReaderStep::Stop,
            InboundEvent::Ping => step == ReaderStep::Continue,
            InboundEvent::Pong => step == ReaderStep::Continue,
            InboundEvent::Frame => step == ReaderStep::Continue,
            InboundEvent::StreamError => step == ReaderStep::Stop,
        },
{
    match event {
        InboundEvent::Text(text) => ReaderStep::Dispatch(protocol_lines(text.as_str())),
        InboundEvent::Binary(bytes) => match decode_utf8(bytes) {
            Some(text) => ReaderStep::Dispatch(protocol_lines(text.as_str())),
            None => ReaderStep::Continue,
        },
        InboundEvent::Close => ReaderStep::Stop,
        InboundEvent::Ping => ReaderStep::Continue,
        InboundEvent::Pong => ReaderStep::Continue,
        InboundEvent::Frame => ReaderStep::Continue,
        InboundEvent::StreamError => ReaderStep::Stop,
    }
}

/// The writer pump's reaction to one send attempt: on success it keeps
/// draining the queue and the state is untouched; on failure it runs the
/// disconnect protocol and stops, returning the entries to complete with a
/// disconnection error. Each outbound message is sent at most once.
pub fn writer_on_send_result(state: &mut ConnectionState, send_ok: bool) -> (r: (bool, Vec<u64>))
    ensures
        r.0 == !send_ok,
        send_ok ==> *final(state) == *old(state) && r.1@ == Seq::<u64>::empty(),
        !send_ok ==> (final(state).model(), r.1@) == disconnect_transition(old(state).model())
            && !final(state).is_live(),
{
    if send_ok {
        (false, Vec::new())
    } else {
        let failed = state.mark_disconnected();
        (true, failed)
    }
}

} // verus!
