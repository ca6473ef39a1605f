//! Per-stream state: the RFC 7540 lifecycle states and the bookkeeping a
//! single stream carries (flow windows, content-length accounting, reset
//! reason, terminal-event discipline).

use vstd::prelude::*;
use crate::frame::{Reason, StreamId, MAX_WINDOW_SIZE};

verus! {

/// The RFC 7540 stream states. Reserved states belong to server push,
/// which this engine never initiates or accepts.
#[derive(Clone, Copy, PartialEq, Eq, Structural, Debug)]
pub enum StreamState {
    Idle,
    ReservedLocal,
    ReservedRemote,
    Open,
    HalfClosedLocal,
    HalfClosedRemote,
    Closed,
}

impl StreamState {
    /// DATA and trailers may arrive from the peer only in these states.
    pub open spec fn can_recv(self) -> bool {
        self is Open || self is HalfClosedLocal
    }

    /// Frames may be sent for the stream only in these states.
    pub open spec fn can_send(self) -> bool {
        self is Open || self is HalfClosedRemote
    }

    /// The state after the remote side finished (END_STREAM received).
    pub open spec fn after_remote_close(self) -> StreamState {
        if self is Open {
            StreamState::HalfClosedRemote
        } else {
            StreamState::Closed
        }
    }

    /// The state after the local side finished (END_STREAM sent).
    pub open spec fn after_local_close(self) -> StreamState {
        if self is Open {
            StreamState::HalfClosedLocal
        } else {
            StreamState::Closed
        }
    }
}

/// One stream's state and accounting.
#[derive(Clone, Copy, Debug)]
pub struct Stream {
    pub id: StreamId,
    pub state: StreamState,
    /// How many octets the peer may still send us on this stream.
    pub recv_flow: i32,
    /// How many octets we may still send the peer on this stream.
    pub send_flow: i32,
    /// Capacity the application consumed but the engine has not yet
    /// returned to the peer as a WINDOW_UPDATE.
    pub pending_window_update: u32,
    /// Value of the `content-length` header, when one arrived.
    pub content_length_expected: Option<u64>,
    /// Payload octets counted against `content_length_expected`.
    pub content_length_seen: u64,
    /// The request method was HEAD: the response payload must be empty.
    pub head_response: bool,
    /// The reason the stream was reset with, if it was.
    pub failed_reason: Option<Reason>,
    /// The first HEADERS from the peer arrived; the next HEADERS from the
    /// peer are trailers.
    pub headers_received: bool,
    /// A terminal event (eof-bearing headers, data, trailers or reset) has
    /// been handed to the application; there may never be a second one.
    pub eof_delivered: bool,
}

impl Stream {
    /// Well-formedness of a single stream: the identifier is a nonzero
    /// 31-bit id, the payload never exceeds the announced content length,
    /// and window plus unreturned capacity stays within the legal window.
    pub open spec fn wf(self) -> bool {
        &&& self.id.wf()
        &&& self.id.id != 0
        &&& (self.content_length_expected matches Some(e) ==> self.content_length_seen <= e)
        &&& self.recv_flow + self.pending_window_update <= MAX_WINDOW_SIZE
        &&& (self.eof_delivered ==> !self.state.can_recv())
    }

    /// A stream as it enters the registry when it is opened by HEADERS.
    pub fn new(id: StreamId, state: StreamState, recv_window: u32, send_window: u32) -> (r:
        Stream)
        requires
            id.wf(),
            id.id != 0,
            recv_window <= MAX_WINDOW_SIZE,
            send_window <= MAX_WINDOW_SIZE,
        ensures
            r == (Stream {
                id,
                state,
                recv_flow: recv_window as i32,
                send_flow: send_window as i32,
                pending_window_update: 0,
                content_length_expected: None,
                content_length_seen: 0,
                head_response: false,
                failed_reason: None,
                headers_received: false,
                eof_delivered: false,
            }),
            r.wf(),
    {
        Stream {
            id,
            state,
            recv_flow: recv_window as i32,
            send_flow: send_window as i32,
            pending_window_update: 0,
            content_length_expected: None,
            content_length_seen: 0,
            head_response: false,
            failed_reason: None,
            headers_received: false,
            eof_delivered: false,
        }
    }
}

/// The content-length invariant every well-formed stream maintains across
/// every DATA frame: what was counted never exceeds what was announced.
pub proof fn lemma_content_length_invariant(s: Stream)
    requires
        s.wf(),
    ensures
        s.content_length_expected matches Some(e) ==> s.content_length_seen <= e,
{
}

} // verus!
