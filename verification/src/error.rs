//! The three error scopes of the engine: connection-fatal protocol errors,
//! stream-fatal stream errors, and application-visible operation errors.

use vstd::prelude::*;
use vstd::string::StringSliceAdditionalSpecFns;
use crate::codec::EncoderError;
use crate::frame::{Frame, FrameError, GoAway, Reason, StreamId};

verus! {

/// The decimal digits of a number, most significant first.
pub open spec fn spec_decimal(n: int) -> Seq<u8>
    decreases n,
{
    if n < 10 {
        seq![(0x30 + if n >= 0 {
            n
        } else {
            0
        }) as u8]
    } else {
        spec_decimal(n / 10) + seq![(0x30 + n % 10) as u8]
    }
}

/// Renders a number as its decimal digits.
pub fn u32_decimal(n: u32) -> (r: Vec<u8>)
    ensures
        r@ == spec_decimal(n as int),
    decreases n,
{
    if n < 10 {
        let mut v: Vec<u8> = Vec::new();
        v.push(0x30 + n as u8);
        proof {
            assert(v@ =~= spec_decimal(n as int));
        }
        v
    } else {
        let mut v = u32_decimal(n / 10);
        v.push(0x30 + (n % 10) as u8);
        proof {
            assert(v@ =~= spec_decimal(n as int));
        }
        v
    }
}

/// Connection-fatal errors: each one maps to a GOAWAY frame, after which
/// the connection closes.
#[derive(Debug)]
pub enum ProtocolError {
    /// A frame arrived for a stream this connection never knew.
    UnknownStream(Frame),
    /// An explicit reason, already classified.
    Reason(Reason),
    /// The outbound byte-level frame layer failed.
    Encoder(EncoderError),
    /// A frame arrived for a stream still in idle state; the text names the
    /// frame type that arrived.
    StreamIdle(&'static str),
    /// A frame arrived for a stream that is closed and no longer absorbed.
    StreamClosed(StreamId),
    /// An invalid stream identifier was provided.
    InvalidStreamId,
    /// A SETTINGS acknowledgement arrived with none outstanding.
    UnexpectedSettingsAck,
    /// A required pseudo-header field is missing.
    MissingPseudo(&'static str),
    /// A pseudo-header field arrived where none is allowed.
    UnexpectedPseudo(&'static str),
    /// A WINDOW_UPDATE frame carried increment zero at connection level.
    ZeroWindowUpdateValue,
    /// The transport saw no traffic within the keep-alive period.
    KeepaliveTimeout,
    /// The inbound byte-level frame layer failed.
    Frame(FrameError),
}

impl ProtocolError {
    /// The reason code the GOAWAY for this error carries.
    pub open spec fn spec_goaway_reason(self) -> Reason {
        match self {
            ProtocolError::Reason(reason) => reason,
            ProtocolError::StreamClosed(_) => Reason::StreamClosed,
            ProtocolError::KeepaliveTimeout => Reason::NoError,
            ProtocolError::Frame(err) => err.spec_reason(),
            _ => Reason::ProtocolError,
        }
    }

    /// The debug payload the GOAWAY for this error carries.
    pub open spec fn spec_goaway_data(self) -> Seq<u8> {
        match self {
            ProtocolError::Reason(_) => Seq::<u8>::empty(),
            ProtocolError::Encoder(_) => "error during frame encoding".spec_bytes(),
            ProtocolError::MissingPseudo(s) => "Missing pseudo header ".spec_bytes()
                + s.spec_bytes(),
            ProtocolError::UnexpectedPseudo(s) => "Unexpected pseudo header ".spec_bytes()
                + s.spec_bytes(),
            ProtocolError::UnknownStream(_) => "unknown stream".spec_bytes(),
            ProtocolError::InvalidStreamId => "An invalid stream identifier was provided"
                .spec_bytes(),
            ProtocolError::StreamIdle(s) => "Stream idle: ".spec_bytes() + s.spec_bytes(),
            ProtocolError::StreamClosed(id) => "stream ".spec_bytes() + spec_decimal(
                id.id as int,
            ) + " is closed".spec_bytes(),
            ProtocolError::UnexpectedSettingsAck => "received unexpected settings ack"
                .spec_bytes(),
            ProtocolError::ZeroWindowUpdateValue =>
                "zero value for window update frame is not allowed".spec_bytes(),
            ProtocolError::KeepaliveTimeout => "keep-alive timeout".spec_bytes(),
            ProtocolError::Frame(_) => "protocol error".spec_bytes(),
        }
    }

    /// The GOAWAY frame this connection error maps to: the reason code of
    /// the error's class, a human-readable debug payload, and last stream
    /// id zero until the connection fills it in.
    pub fn to_goaway(&self) -> (r: GoAway)
        ensures
            r.reason == self.spec_goaway_reason(),
            r.last_stream_id.id == 0,
            r.data@ == self.spec_goaway_data(),
    {
        match self {
            ProtocolError::Reason(reason) => GoAway::new(*reason),
            ProtocolError::Encoder(_) => GoAway::new(Reason::ProtocolError).set_data(
                "error during frame encoding",
            ),
            ProtocolError::MissingPseudo(s) => GoAway::new(Reason::ProtocolError).set_data(
                "Missing pseudo header ",
            ).append_data(s),
            ProtocolError::UnexpectedPseudo(s) => GoAway::new(Reason::ProtocolError).set_data(
                "Unexpected pseudo header ",
            ).append_data(s),
            ProtocolError::UnknownStream(_) => GoAway::new(Reason::ProtocolError).set_data(
                "unknown stream",
            ),
            ProtocolError::InvalidStreamId => GoAway::new(Reason::ProtocolError).set_data(
                "An invalid stream identifier was provided",
            ),
            ProtocolError::StreamIdle(s) => GoAway::new(Reason::ProtocolError).set_data(
                "Stream idle: ",
            ).append_data(s),
            ProtocolError::StreamClosed(id) => {
                let digits = u32_decimal(id.id);
                GoAway::new(Reason::StreamClosed).set_data("stream ").append_bytes(
                    &digits,
                ).append_data(" is closed")
            },
            ProtocolError::UnexpectedSettingsAck => GoAway::new(Reason::ProtocolError).set_data(
                "received unexpected settings ack",
            ),
            ProtocolError::ZeroWindowUpdateValue => GoAway::new(Reason::ProtocolError).set_data(
                "zero value for window update frame is not allowed",
            ),
            ProtocolError::KeepaliveTimeout => GoAway::new(Reason::NoError).set_data(
                "keep-alive timeout",
            ),
            ProtocolError::Frame(err) => GoAway::new(err.reason()).set_data("protocol error"),
        }
    }
}

impl From<Reason> for ProtocolError {
    fn from(r: Reason) -> (e: ProtocolError) {
        ProtocolError::Reason(r)
    }
}

impl vstd::std_specs::convert::FromSpecImpl<Reason> for ProtocolError {
    open spec fn obeys_from_spec() -> bool {
        true
    }

    open spec fn from_spec(r: Reason) -> ProtocolError {
        ProtocolError::Reason(r)
    }
}

impl From<EncoderError> for ProtocolError {
    fn from(e: EncoderError) -> (r: ProtocolError) {
        ProtocolError::Encoder(e)
    }
}

impl vstd::std_specs::convert::FromSpecImpl<EncoderError> for ProtocolError {
    open spec fn obeys_from_spec() -> bool {
        true
    }

    open spec fn from_spec(e: EncoderError) -> ProtocolError {
        ProtocolError::Encoder(e)
    }
}

impl From<FrameError> for ProtocolError {
    fn from(e: FrameError) -> (r: ProtocolError) {
        ProtocolError::Frame(e)
    }
}

impl vstd::std_specs::convert::FromSpecImpl<FrameError> for ProtocolError {
    open spec fn obeys_from_spec() -> bool {
        true
    }

    open spec fn from_spec(e: FrameError) -> ProtocolError {
        ProtocolError::Frame(e)
    }
}

/// Stream-fatal, connection-recoverable errors: each one maps to a
/// RST_STREAM with the stream's reason; the connection continues.
#[derive(Clone, Copy, PartialEq, Eq, Debug)]
pub enum StreamError {
    /// An operation arrived for a stream still in idle state.
    Idle(&'static str),
    /// The stream is closed.
    Closed,
    /// A window increment would push a flow-control window past 2^31 - 1.
    WindowOverflowed,
    /// A WINDOW_UPDATE frame carried increment zero at stream level.
    WindowZeroUpdateValue,
    /// Trailer headers arrived without the END_STREAM flag.
    TrailersWithoutEos,
    /// The content-length header value is not a plain decimal number.
    InvalidContentLength,
    /// The payload length does not match the content-length header.
    WrongPayloadLength,
    /// A HEAD response carried a non-empty payload.
    NonEmptyPayload,
    /// Opening the stream would exceed the cap on peer-initiated streams.
    Refused,
}

impl StreamError {
    /// The reason code the RST_STREAM for this error carries.
    pub open spec fn spec_reason(self) -> Reason {
        match self {
            StreamError::Idle(_) => Reason::ProtocolError,
            StreamError::Closed => Reason::StreamClosed,
            StreamError::WindowOverflowed => Reason::FlowControlError,
            StreamError::WindowZeroUpdateValue => Reason::ProtocolError,
            StreamError::TrailersWithoutEos => Reason::ProtocolError,
            StreamError::InvalidContentLength => Reason::ProtocolError,
            StreamError::WrongPayloadLength => Reason::ProtocolError,
            StreamError::NonEmptyPayload => Reason::ProtocolError,
            StreamError::Refused => Reason::RefusedStream,
        }
    }

    pub fn reason(&self) -> (r: Reason)
        ensures
            r == self.spec_reason(),
    {
        match self {
            StreamError::Idle(_) => Reason::ProtocolError,
            StreamError::Closed => Reason::StreamClosed,
            StreamError::WindowOverflowed => Reason::FlowControlError,
            StreamError::WindowZeroUpdateValue => Reason::ProtocolError,
            StreamError::TrailersWithoutEos => Reason::ProtocolError,
            StreamError::InvalidContentLength => Reason::ProtocolError,
            StreamError::WrongPayloadLength => Reason::ProtocolError,
            StreamError::NonEmptyPayload => Reason::ProtocolError,
            StreamError::Refused => Reason::RefusedStream,
        }
    }
}

/// A stream error together with the stream it belongs to.
#[derive(Clone, Copy, PartialEq, Eq, Debug)]
pub struct StreamErrorInner {
    pub kind: StreamError,
    pub stream: StreamId,
}

impl StreamErrorInner {
    pub fn new(stream: StreamId, kind: StreamError) -> (r: StreamErrorInner)
        ensures
            r == (StreamErrorInner { kind, stream }),
    {
        StreamErrorInner { kind, stream }
    }

    pub fn into_inner(self) -> (r: (StreamId, StreamError))
        ensures
            r == (self.stream, self.kind),
    {
        (self.stream, self.kind)
    }
}

/// What inbound frame handling reports upward: a connection-fatal error
/// (ends in GOAWAY) or a stream-fatal error (ends in RST_STREAM).
#[derive(Debug)]
pub enum RecvError {
    Connection(ProtocolError),
    Stream(StreamErrorInner),
}

/// Application-visible operation errors.
#[derive(Debug)]
pub enum OperationError {
    Stream(StreamError),
    Protocol(ProtocolError),
    /// Cannot process the operation for a stream still in idle state.
    Idle,
    /// Cannot process the operation for a stream in payload state.
    Payload,
    /// The stream is closed, locally or by GOAWAY.
    Closed(Option<Reason>),
    /// The stream has been reset by the peer.
    RemoteReset(Reason),
    /// The stream id space is exhausted; a new connection is needed.
    OverflowedStreamId,
    /// The connection is closed.
    Disconnected,
}

impl From<StreamError> for OperationError {
    fn from(e: StreamError) -> (r: OperationError) {
        OperationError::Stream(e)
    }
}

impl vstd::std_specs::convert::FromSpecImpl<StreamError> for OperationError {
    open spec fn obeys_from_spec() -> bool {
        true
    }

    open spec fn from_spec(e: StreamError) -> OperationError {
        OperationError::Stream(e)
    }
}

impl From<ProtocolError> for OperationError {
    fn from(e: ProtocolError) -> (r: OperationError) {
        OperationError::Protocol(e)
    }
}

impl vstd::std_specs::convert::FromSpecImpl<ProtocolError> for OperationError {
    open spec fn obeys_from_spec() -> bool {
        true
    }

    open spec fn from_spec(e: ProtocolError) -> OperationError {
        OperationError::Protocol(e)
    }
}

} // verus!
