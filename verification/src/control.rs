//! Control events delivered to the user's control service, and the result
//! the service answers with.

use vstd::prelude::*;
use crate::error::{ProtocolError, StreamErrorInner};
use crate::frame::{Frame, GoAway, Reason, Reset, StreamId};

verus! {

/// What the control service answers: optionally a frame to send, and
/// whether to close the transport.
#[derive(Debug)]
pub struct ControlResult {
    pub frame: Option<Frame>,
    pub disconnect: bool,
}

/// Protocol, stream, application and lifecycle events the engine hands to
/// the user's control service.
#[derive(Debug)]
pub enum ControlMessage {
    /// A connection-fatal protocol error.
    ProtoError(ProtocolError),
    /// A stream-fatal error.
    StreamFailed(StreamErrorInner),
    /// The peer sent GOAWAY: the connection is draining.
    GoneAway(GoAway),
    /// The peer disconnected; the text describes the transport error, when
    /// one was reported.
    PeerGone(Option<String>),
    /// The publish service failed for one stream; the text describes the
    /// application's error.
    AppError { stream: StreamId, error: String },
    /// The dispatcher is shutting down.
    Terminated { is_error: bool },
}

impl ControlMessage {
    pub fn proto_error(err: ProtocolError) -> (r: ControlMessage)
        ensures
            r matches ControlMessage::ProtoError(e) && e == err,
    {
        ControlMessage::ProtoError(err)
    }

    pub fn stream_error(err: StreamErrorInner) -> (r: ControlMessage)
        ensures
            r == ControlMessage::StreamFailed(err),
    {
        ControlMessage::StreamFailed(err)
    }

    pub fn go_away(frame: GoAway) -> (r: ControlMessage)
        ensures
            r matches ControlMessage::GoneAway(g) && g == frame,
    {
        ControlMessage::GoneAway(frame)
    }

    pub fn peer_gone(error: Option<String>) -> (r: ControlMessage)
        ensures
            r == ControlMessage::PeerGone(error),
    {
        ControlMessage::PeerGone(error)
    }

    pub fn app_error(error: String, stream: StreamId) -> (r: ControlMessage)
        ensures
            r matches ControlMessage::AppError { stream: s, error: e } && s == stream && e@
                == error@,
    {
        ControlMessage::AppError { stream, error }
    }

    pub fn terminated(is_error: bool) -> (r: ControlMessage)
        ensures
            r == (ControlMessage::Terminated { is_error }),
    {
        ControlMessage::Terminated { is_error }
    }

    /// What the default acknowledgement of this event looks like: protocol
    /// errors answer with their GOAWAY and close; stream errors answer with
    /// RST_STREAM carrying the error's reason; an application error resets
    /// its stream with INTERNAL_ERROR; a vanished peer closes; everything
    /// else is acknowledged silently.
    pub open spec fn is_default_ack(self, r: ControlResult) -> bool {
        match self {
            ControlMessage::ProtoError(e) => r.disconnect && (r.frame matches Some(
                Frame::GoAway(g),
            ) && g.reason == e.spec_goaway_reason() && g.last_stream_id.id == 0 && g.data@
                == e.spec_goaway_data()),
            ControlMessage::StreamFailed(inner) => !r.disconnect && r.frame == Some(
                Frame::Reset(Reset { stream_id: inner.stream, reason: inner.kind.spec_reason() }),
            ),
            ControlMessage::GoneAway(_) => !r.disconnect && r.frame is None,
            ControlMessage::PeerGone(_) => r.disconnect && r.frame is None,
            ControlMessage::AppError { stream, .. } => !r.disconnect && r.frame == Some(
                Frame::Reset(Reset { stream_id: stream, reason: Reason::InternalError }),
            ),
            ControlMessage::Terminated { .. } => !r.disconnect && r.frame is None,
        }
    }

    /// The default acknowledgement of this event.
    pub fn ack(&self) -> (r: ControlResult)
        ensures
            self.is_default_ack(r),
    {
        match self {
            ControlMessage::ProtoError(e) => ControlResult {
                frame: Some(Frame::GoAway(e.to_goaway())),
                disconnect: true,
            },
            ControlMessage::StreamFailed(inner) => ControlResult {
                frame: Some(Frame::Reset(Reset::new(inner.stream, inner.kind.reason()))),
                disconnect: false,
            },
            ControlMessage::GoneAway(_) => ControlResult { frame: None, disconnect: false },
            ControlMessage::PeerGone(_) => ControlResult { frame: None, disconnect: true },
            ControlMessage::AppError { stream, .. } => ControlResult {
                frame: Some(Frame::Reset(Reset::new(*stream, Reason::InternalError))),
                disconnect: false,
            },
            ControlMessage::Terminated { .. } => ControlResult { frame: None, disconnect: false },
        }
    }
}

} // verus!
