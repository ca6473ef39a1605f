//! Frame-level data model: stream identifiers, reason codes, frame kinds,
//! settings, pseudo-headers and the typed frames the engine consumes and
//! produces.

use vstd::prelude::*;
use vstd::slice::slice_to_vec;
use vstd::string::StringSliceAdditionalSpecFns;
use ntex_bytes::Bytes;
use ntex_http::HeaderMap;
use crate::error::ProtocolError;

pub mod ping;

verus! {

/// Largest value a 31-bit stream identifier can hold.
pub const MAX_STREAM_ID: u32 = 0x7fff_ffff;

/// Largest legal flow-control window (2^31 - 1 octets).
pub const MAX_WINDOW_SIZE: u32 = 0x7fff_ffff;

/// Window size every connection and stream starts with.
pub const DEFAULT_INITIAL_WINDOW_SIZE: u32 = 65_535;

/// Frame size every connection starts with, and the smallest legal maximum.
pub const DEFAULT_MAX_FRAME_SIZE: u32 = 16_384;

/// Largest legal value for the maximum frame size setting (2^24 - 1).
pub const MAX_MAX_FRAME_SIZE: u32 = 16_777_215;

/// A 31-bit HTTP/2 stream identifier. Client-initiated streams are odd,
/// server-initiated streams are even; id 0 denotes the connection itself.
#[derive(Clone, Copy, PartialEq, Eq, Structural, Debug)]
pub struct StreamId {
    pub id: u32,
}

impl StreamId {
    /// The identifier is within the 31-bit space.
    pub open spec fn wf(self) -> bool {
        self.id <= MAX_STREAM_ID
    }

    /// Streams opened by a client carry odd identifiers.
    pub open spec fn is_client_initiated(self) -> bool {
        self.id % 2 == 1
    }

    /// Streams opened by a server carry even, nonzero identifiers.
    pub open spec fn is_server_initiated(self) -> bool {
        self.id % 2 == 0 && self.id != 0
    }

    /// The connection-level identifier.
    pub fn zero() -> (r: StreamId)
        ensures
            r.id == 0,
    {
        StreamId { id: 0 }
    }

    pub fn new(id: u32) -> (r: StreamId)
        requires
            id <= MAX_STREAM_ID,
        ensures
            r.id == id,
    {
        StreamId { id }
    }

    pub fn is_zero(&self) -> (r: bool)
        ensures
            r == (self.id == 0),
    {
        self.id == 0
    }
}

/// HTTP/2 error codes, as carried by RST_STREAM and GOAWAY frames.
#[derive(Clone, Copy, PartialEq, Eq, Structural, Debug)]
pub enum Reason {
    NoError,
    ProtocolError,
    InternalError,
    FlowControlError,
    SettingsTimeout,
    StreamClosed,
    FrameSizeError,
    RefusedStream,
    Cancel,
    CompressionError,
    ConnectError,
    EnhanceYourCalm,
    InadequateSecurity,
    Http11Required,
}

impl Reason {
    /// The wire code of this reason.
    pub open spec fn spec_code(self) -> u32 {
        match self {
            Reason::NoError => 0,
            Reason::ProtocolError => 1,
            Reason::InternalError => 2,
            Reason::FlowControlError => 3,
            Reason::SettingsTimeout => 4,
            Reason::StreamClosed => 5,
            Reason::FrameSizeError => 6,
            Reason::RefusedStream => 7,
            Reason::Cancel => 8,
            Reason::CompressionError => 9,
            Reason::ConnectError => 10,
            Reason::EnhanceYourCalm => 11,
            Reason::InadequateSecurity => 12,
            Reason::Http11Required => 13,
        }
    }

    /// The reason a wire code denotes; codes this engine does not know are
    /// treated as INTERNAL_ERROR, as RFC 7540 permits.
    pub open spec fn spec_from_code(code: u32) -> Reason {
        if code == 0 {
            Reason::NoError
        } else if code == 1 {
            Reason::ProtocolError
        } else if code == 3 {
            Reason::FlowControlError
        } else if code == 4 {
            Reason::SettingsTimeout
        } else if code == 5 {
            Reason::StreamClosed
        } else if code == 6 {
            Reason::FrameSizeError
        } else if code == 7 {
            Reason::RefusedStream
        } else if code == 8 {
            Reason::Cancel
        } else if code == 9 {
            Reason::CompressionError
        } else if code == 10 {
            Reason::ConnectError
        } else if code == 11 {
            Reason::EnhanceYourCalm
        } else if code == 12 {
            Reason::InadequateSecurity
        } else if code == 13 {
            Reason::Http11Required
        } else {
            Reason::InternalError
        }
    }

    pub fn code(&self) -> (r: u32)
        ensures
            r == self.spec_code(),
    {
        match self {
            Reason::NoError => 0,
            Reason::ProtocolError => 1,
            Reason::InternalError => 2,
            Reason::FlowControlError => 3,
            Reason::SettingsTimeout => 4,
            Reason::StreamClosed => 5,
            Reason::FrameSizeError => 6,
            Reason::RefusedStream => 7,
            Reason::Cancel => 8,
            Reason::CompressionError => 9,
            Reason::ConnectError => 10,
            Reason::EnhanceYourCalm => 11,
            Reason::InadequateSecurity => 12,
            Reason::Http11Required => 13,
        }
    }

    pub fn from_code(code: u32) -> (r: Reason)
        ensures
            r == Reason::spec_from_code(code),
    {
        if code == 0 {
            Reason::NoError
        } else if code == 1 {
            Reason::ProtocolError
        } else if code == 3 {
            Reason::FlowControlError
        } else if code == 4 {
            Reason::SettingsTimeout
        } else if code == 5 {
            Reason::StreamClosed
        } else if code == 6 {
            Reason::FrameSizeError
        } else if code == 7 {
            Reason::RefusedStream
        } else if code == 8 {
            Reason::Cancel
        } else if code == 9 {
            Reason::CompressionError
        } else if code == 10 {
            Reason::ConnectError
        } else if code == 11 {
            Reason::EnhanceYourCalm
        } else if code == 12 {
            Reason::InadequateSecurity
        } else if code == 13 {
            Reason::Http11Required
        } else {
            Reason::InternalError
        }
    }
}

/// Decoding the code of a reason yields that reason back.
pub proof fn lemma_reason_code_round_trip(r: Reason)
    ensures
        Reason::spec_from_code(r.spec_code()) == r,
{
}

/// The frame types of RFC 7540.
#[derive(Clone, Copy, PartialEq, Eq, Structural, Debug)]
pub enum Kind {
    Data,
    Headers,
    Priority,
    Reset,
    Settings,
    PushPromise,
    Ping,
    GoAway,
    WindowUpdate,
    Continuation,
}

impl Kind {
    pub open spec fn spec_code(self) -> u8 {
        match self {
            Kind::Data => 0,
            Kind::Headers => 1,
            Kind::Priority => 2,
            Kind::Reset => 3,
            Kind::Settings => 4,
            Kind::PushPromise => 5,
            Kind::Ping => 6,
            Kind::GoAway => 7,
            Kind::WindowUpdate => 8,
            Kind::Continuation => 9,
        }
    }

    pub open spec fn spec_from_code(code: u8) -> Option<Kind> {
        if code == 0 {
            Some(Kind::Data)
        } else if code == 1 {
            Some(Kind::Headers)
        } else if code == 2 {
            Some(Kind::Priority)
        } else if code == 3 {
            Some(Kind::Reset)
        } else if code == 4 {
            Some(Kind::Settings)
        } else if code == 5 {
            Some(Kind::PushPromise)
        } else if code == 6 {
            Some(Kind::Ping)
        } else if code == 7 {
            Some(Kind::GoAway)
        } else if code == 8 {
            Some(Kind::WindowUpdate)
        } else if code == 9 {
            Some(Kind::Continuation)
        } else {
            None
        }
    }

    pub fn code(&self) -> (r: u8)
        ensures
            r == self.spec_code(),
    {
        match self {
            Kind::Data => 0,
            Kind::Headers => 1,
            Kind::Priority => 2,
            Kind::Reset => 3,
            Kind::Settings => 4,
            Kind::PushPromise => 5,
            Kind::Ping => 6,
            Kind::GoAway => 7,
            Kind::WindowUpdate => 8,
            Kind::Continuation => 9,
        }
    }

    pub fn from_code(code: u8) -> (r: Option<Kind>)
        ensures
            r == Kind::spec_from_code(code),
    {
        if code == 0 {
            Some(Kind::Data)
        } else if code == 1 {
            Some(Kind::Headers)
        } else if code == 2 {
            Some(Kind::Priority)
        } else if code == 3 {
            Some(Kind::Reset)
        } else if code == 4 {
            Some(Kind::Settings)
        } else if code == 5 {
            Some(Kind::PushPromise)
        } else if code == 6 {
            Some(Kind::Ping)
        } else if code == 7 {
            Some(Kind::GoAway)
        } else if code == 8 {
            Some(Kind::WindowUpdate)
        } else if code == 9 {
            Some(Kind::Continuation)
        } else {
            None
        }
    }
}

/// Decoding the code of a kind yields that kind back.
pub proof fn lemma_kind_code_round_trip(k: Kind)
    ensures
        Kind::spec_from_code(k.spec_code()) == Some(k),
{
}

/// Errors of the byte-level frame layer.
#[derive(Clone, Copy, PartialEq, Eq, Structural, Debug)]
pub enum FrameError {
    /// The payload length is illegal for the frame's type.
    BadFrameSize,
    /// The stream identifier is nonzero where zero is required, or zero
    /// where a stream is required.
    InvalidStreamId,
    /// A PUSH_PROMISE frame arrived; this engine never enables push.
    UnexpectedPushPromise,
    /// A frame type this byte-level layer does not handle.
    UnsupportedKind,
}

impl FrameError {
    /// The reason code a connection error for this frame error carries:
    /// size violations are FRAME_SIZE_ERROR, everything else PROTOCOL_ERROR.
    pub open spec fn spec_reason(self) -> Reason {
        match self {
            FrameError::BadFrameSize => Reason::FrameSizeError,
            FrameError::InvalidStreamId => Reason::ProtocolError,
            FrameError::UnexpectedPushPromise => Reason::ProtocolError,
            FrameError::UnsupportedKind => Reason::ProtocolError,
        }
    }

    pub fn reason(&self) -> (r: Reason)
        ensures
            r == self.spec_reason(),
    {
        match self {
            FrameError::BadFrameSize => Reason::FrameSizeError,
            FrameError::InvalidStreamId => Reason::ProtocolError,
            FrameError::UnexpectedPushPromise => Reason::ProtocolError,
            FrameError::UnsupportedKind => Reason::ProtocolError,
        }
    }
}

/// The 9-octet frame header: payload length (24 bits), type, flags, and the
/// stream identifier (reserved bit zero).
#[derive(Clone, Copy, PartialEq, Eq, Structural, Debug)]
pub struct Head {
    pub kind: Kind,
    pub flag: u8,
    pub stream_id: StreamId,
}

impl Head {
    pub fn new(kind: Kind, flag: u8, stream_id: StreamId) -> (r: Head)
        ensures
            r == (Head { kind, flag, stream_id }),
    {
        Head { kind, flag, stream_id }
    }

    pub fn kind(&self) -> (r: Kind)
        ensures
            r == self.kind,
    {
        self.kind
    }

    pub fn flag(&self) -> (r: u8)
        ensures
            r == self.flag,
    {
        self.flag
    }

    pub fn stream_id(&self) -> (r: StreamId)
        ensures
            r == self.stream_id,
    {
        self.stream_id
    }
}

/// Request methods, as far as the engine itself must tell them apart;
/// everything else rides in `Other`.
#[derive(Clone, PartialEq, Eq, Debug)]
pub enum Method {
    Get,
    Head,
    Post,
    Put,
    Delete,
    Connect,
    Options,
    Trace,
    Patch,
    Other(String),
}

/// The pseudo-header fields of a HEADERS frame.
#[derive(Clone, Debug)]
pub struct PseudoHeaders {
    pub method: Option<Method>,
    pub scheme: Option<String>,
    pub authority: Option<String>,
    pub path: Option<String>,
    pub protocol: Option<String>,
    pub status: Option<u16>,
}

impl PseudoHeaders {
    /// No pseudo-header field is present, as trailers require.
    pub open spec fn spec_is_empty(self) -> bool {
        &&& self.method is None
        &&& self.scheme is None
        &&& self.authority is None
        &&& self.path is None
        &&& self.protocol is None
        &&& self.status is None
    }

    pub fn empty() -> (r: PseudoHeaders)
        ensures
            r.spec_is_empty(),
    {
        PseudoHeaders {
            method: None,
            scheme: None,
            authority: None,
            path: None,
            protocol: None,
            status: None,
        }
    }

    pub fn is_empty(&self) -> (r: bool)
        ensures
            r == self.spec_is_empty(),
    {
        self.method.is_none() && self.scheme.is_none() && self.authority.is_none()
            && self.path.is_none() && self.protocol.is_none() && self.status.is_none()
    }
}

/// Why the pseudo-header fields of a request's opening HEADERS are
/// malformed, if they are: a plain request needs `:method`, `:scheme` and
/// `:path`; a CONNECT request needs `:method` and `:authority` only;
/// `:protocol` is only legal on a CONNECT once extended CONNECT was
/// negotiated, and `:status` never is.
pub open spec fn spec_request_pseudo_error(p: PseudoHeaders, extended_connect: bool) -> Option<
    ProtocolError,
> {
    if p.status is Some {
        Some(ProtocolError::UnexpectedPseudo(":status"))
    } else if p.method is None {
        Some(ProtocolError::MissingPseudo(":method"))
    } else if p.protocol is Some && !(extended_connect && p.method == Some(Method::Connect)) {
        Some(ProtocolError::UnexpectedPseudo(":protocol"))
    } else if p.method == Some(Method::Connect) && p.protocol is None {
        if p.scheme is Some {
            Some(ProtocolError::UnexpectedPseudo(":scheme"))
        } else if p.path is Some {
            Some(ProtocolError::UnexpectedPseudo(":path"))
        } else if p.authority is None {
            Some(ProtocolError::MissingPseudo(":authority"))
        } else {
            None
        }
    } else if p.scheme is None {
        Some(ProtocolError::MissingPseudo(":scheme"))
    } else if p.path is None {
        Some(ProtocolError::MissingPseudo(":path"))
    } else {
        None
    }
}

/// Why the pseudo-header fields of a response's opening HEADERS are
/// malformed, if they are: `:status` is required, everything else is
/// unexpected.
pub open spec fn spec_response_pseudo_error(p: PseudoHeaders) -> Option<ProtocolError> {
    if p.method is Some {
        Some(ProtocolError::UnexpectedPseudo(":method"))
    } else if p.scheme is Some {
        Some(ProtocolError::UnexpectedPseudo(":scheme"))
    } else if p.path is Some {
        Some(ProtocolError::UnexpectedPseudo(":path"))
    } else if p.authority is Some {
        Some(ProtocolError::UnexpectedPseudo(":authority"))
    } else if p.protocol is Some {
        Some(ProtocolError::UnexpectedPseudo(":protocol"))
    } else if p.status is None {
        Some(ProtocolError::MissingPseudo(":status"))
    } else {
        None
    }
}

impl PseudoHeaders {
    /// Validates the pseudo-header fields of a request's opening HEADERS.
    pub fn validate_request(&self, extended_connect: bool) -> (r: Result<(), ProtocolError>)
        ensures
            match spec_request_pseudo_error(*self, extended_connect) {
                Some(e) => r == Err::<(), ProtocolError>(e),
                None => r == Ok::<(), ProtocolError>(()),
            },
    {
        if self.status.is_some() {
            return Err(ProtocolError::UnexpectedPseudo(":status"));
        }
        let is_connect = match &self.method {
            Some(m) => matches!(m, Method::Connect),
            None => return Err(ProtocolError::MissingPseudo(":method")),
        };
        proof {
            assert(is_connect == (self.method == Some(Method::Connect)));
        }
        if self.protocol.is_some() && !(extended_connect && is_connect) {
            return Err(ProtocolError::UnexpectedPseudo(":protocol"));
        }
        if is_connect && self.protocol.is_none() {
            if self.scheme.is_some() {
                return Err(ProtocolError::UnexpectedPseudo(":scheme"));
            }
            if self.path.is_some() {
                return Err(ProtocolError::UnexpectedPseudo(":path"));
            }
            if self.authority.is_none() {
                return Err(ProtocolError::MissingPseudo(":authority"));
            }
            return Ok(());
        }
        if self.scheme.is_none() {
            return Err(ProtocolError::MissingPseudo(":scheme"));
        }
        if self.path.is_none() {
            return Err(ProtocolError::MissingPseudo(":path"));
        }
        Ok(())
    }

    /// Validates the pseudo-header fields of a response's opening HEADERS.
    pub fn validate_response(&self) -> (r: Result<(), ProtocolError>)
        ensures
            match spec_response_pseudo_error(*self) {
                Some(e) => r == Err::<(), ProtocolError>(e),
                None => r == Ok::<(), ProtocolError>(()),
            },
    {
        if self.method.is_some() {
            return Err(ProtocolError::UnexpectedPseudo(":method"));
        }
        if self.scheme.is_some() {
            return Err(ProtocolError::UnexpectedPseudo(":scheme"));
        }
        if self.path.is_some() {
            return Err(ProtocolError::UnexpectedPseudo(":path"));
        }
        if self.authority.is_some() {
            return Err(ProtocolError::UnexpectedPseudo(":authority"));
        }
        if self.protocol.is_some() {
            return Err(ProtocolError::UnexpectedPseudo(":protocol"));
        }
        if self.status.is_none() {
            return Err(ProtocolError::MissingPseudo(":status"));
        }
        Ok(())
    }
}

/// The mutable connection parameters of a SETTINGS frame. `None` means the
/// parameter is not carried by the frame; values are stored as received.
#[derive(Clone, Copy, PartialEq, Eq, Structural, Debug)]
pub struct Settings {
    pub ack: bool,
    pub header_table_size: Option<u32>,
    pub enable_push: Option<u32>,
    pub max_concurrent_streams: Option<u32>,
    pub initial_window_size: Option<u32>,
    pub max_frame_size: Option<u32>,
    pub max_header_list_size: Option<u32>,
    pub enable_connect_protocol: Option<u32>,
}

impl Settings {
    /// Every carried value is legal: ENABLE_PUSH and
    /// ENABLE_CONNECT_PROTOCOL are boolean, INITIAL_WINDOW_SIZE fits the
    /// 31-bit window space and MAX_FRAME_SIZE lies in its legal range.
    pub open spec fn wf(self) -> bool {
        &&& (self.enable_push matches Some(v) ==> v == 0 || v == 1)
        &&& (self.enable_connect_protocol matches Some(v) ==> v == 0 || v == 1)
        &&& (self.initial_window_size matches Some(v) ==> v <= MAX_WINDOW_SIZE)
        &&& (self.max_frame_size matches Some(v) ==> DEFAULT_MAX_FRAME_SIZE <= v
            <= MAX_MAX_FRAME_SIZE)
        &&& (self.ack ==> self == Settings::ack_frame())
    }

    /// A SETTINGS frame that carries no parameter and no ACK flag.
    pub open spec fn spec_default() -> Settings {
        Settings {
            ack: false,
            header_table_size: None,
            enable_push: None,
            max_concurrent_streams: None,
            initial_window_size: None,
            max_frame_size: None,
            max_header_list_size: None,
            enable_connect_protocol: None,
        }
    }

    /// The acknowledgement frame: the ACK flag and an empty payload.
    pub open spec fn ack_frame() -> Settings {
        Settings { ack: true, ..Settings::spec_default() }
    }

    pub fn new() -> (r: Settings)
        ensures
            r == Settings::spec_default(),
            r.wf(),
    {
        Settings {
            ack: false,
            header_table_size: None,
            enable_push: None,
            max_concurrent_streams: None,
            initial_window_size: None,
            max_frame_size: None,
            max_header_list_size: None,
            enable_connect_protocol: None,
        }
    }

    pub fn new_ack() -> (r: Settings)
        ensures
            r == Settings::ack_frame(),
            r.wf(),
    {
        Settings { ack: true, ..Settings::new() }
    }

    /// The stream-level initial window this SETTINGS announces, or the
    /// protocol default when the parameter is absent.
    pub open spec fn spec_initial_window_size(self) -> u32 {
        match self.initial_window_size {
            Some(v) => v,
            None => DEFAULT_INITIAL_WINDOW_SIZE,
        }
    }

    /// The largest frame payload this SETTINGS allows the peer to send, or
    /// the protocol default when the parameter is absent.
    pub open spec fn spec_max_frame_size(self) -> u32 {
        match self.max_frame_size {
            Some(v) => v,
            None => DEFAULT_MAX_FRAME_SIZE,
        }
    }

    pub fn initial_window_size(&self) -> (r: Option<u32>)
        ensures
            r == self.initial_window_size,
    {
        self.initial_window_size
    }

    pub fn max_frame_size(&self) -> (r: Option<u32>)
        ensures
            r == self.max_frame_size,
    {
        self.max_frame_size
    }

    pub fn max_header_list_size(&self) -> (r: Option<u32>)
        ensures
            r == self.max_header_list_size,
    {
        self.max_header_list_size
    }

    pub fn max_concurrent_streams(&self) -> (r: Option<u32>)
        ensures
            r == self.max_concurrent_streams,
    {
        self.max_concurrent_streams
    }

    pub fn is_extended_connect_protocol_enabled(&self) -> (r: bool)
        ensures
            r == (self.enable_connect_protocol matches Some(v) && v == 1),
    {
        match self.enable_connect_protocol {
            Some(v) => v == 1,
            None => false,
        }
    }

    pub fn set_initial_window_size(&mut self, size: Option<u32>)
        requires
            size matches Some(v) ==> v <= MAX_WINDOW_SIZE,
        ensures
            *final(self) == (Settings { initial_window_size: size, ..*old(self) }),
    {
        self.initial_window_size = size;
    }

    pub fn set_max_frame_size(&mut self, size: Option<u32>)
        requires
            size matches Some(v) ==> DEFAULT_MAX_FRAME_SIZE <= v <= MAX_MAX_FRAME_SIZE,
        ensures
            *final(self) == (Settings { max_frame_size: size, ..*old(self) }),
    {
        self.max_frame_size = size;
    }

    pub fn set_max_header_list_size(&mut self, size: Option<u32>)
        ensures
            *final(self) == (Settings { max_header_list_size: size, ..*old(self) }),
    {
        self.max_header_list_size = size;
    }

    pub fn set_max_concurrent_streams(&mut self, max: Option<u32>)
        ensures
            *final(self) == (Settings { max_concurrent_streams: max, ..*old(self) }),
    {
        self.max_concurrent_streams = max;
    }

    /// The parameters after folding a received SETTINGS over the current
    /// ones: carried values replace, omitted values keep their setting.
    pub open spec fn spec_merge(self, other: Settings) -> Settings {
        Settings {
            ack: false,
            header_table_size: if other.header_table_size is Some {
                other.header_table_size
            } else {
                self.header_table_size
            },
            enable_push: if other.enable_push is Some {
                other.enable_push
            } else {
                self.enable_push
            },
            max_concurrent_streams: if other.max_concurrent_streams is Some {
                other.max_concurrent_streams
            } else {
                self.max_concurrent_streams
            },
            initial_window_size: if other.initial_window_size is Some {
                other.initial_window_size
            } else {
                self.initial_window_size
            },
            max_frame_size: if other.max_frame_size is Some {
                other.max_frame_size
            } else {
                self.max_frame_size
            },
            max_header_list_size: if other.max_header_list_size is Some {
                other.max_header_list_size
            } else {
                self.max_header_list_size
            },
            enable_connect_protocol: if other.enable_connect_protocol is Some {
                other.enable_connect_protocol
            } else {
                self.enable_connect_protocol
            },
        }
    }

    /// Folds a received SETTINGS into the current parameters.
    pub fn merge(&mut self, other: &Settings)
        requires
            !old(self).ack,
        ensures
            *final(self) == old(self).spec_merge(*other),
    {
        if other.header_table_size.is_some() {
            self.header_table_size = other.header_table_size;
        }
        if other.enable_push.is_some() {
            self.enable_push = other.enable_push;
        }
        if other.max_concurrent_streams.is_some() {
            self.max_concurrent_streams = other.max_concurrent_streams;
        }
        if other.initial_window_size.is_some() {
            self.initial_window_size = other.initial_window_size;
        }
        if other.max_frame_size.is_some() {
            self.max_frame_size = other.max_frame_size;
        }
        if other.max_header_list_size.is_some() {
            self.max_header_list_size = other.max_header_list_size;
        }
        if other.enable_connect_protocol.is_some() {
            self.enable_connect_protocol = other.enable_connect_protocol;
        }
    }

    pub fn set_enable_connect_protocol(&mut self, val: Option<u32>)
        requires
            val matches Some(v) ==> v == 0 || v == 1,
        ensures
            *final(self) == (Settings { enable_connect_protocol: val, ..*old(self) }),
    {
        self.enable_connect_protocol = val;
    }
}

/// Announcing unchanged parameters is idempotent: folding a SETTINGS into
/// itself changes nothing, so re-sending the current parameters leaves
/// them as they are — the peer still sees exactly one SETTINGS frame and
/// answers it with exactly one acknowledgement per emission.
pub proof fn lemma_settings_merge_idempotent(s: Settings)
    requires
        !s.ack,
    ensures
        s.spec_merge(s) == s,
{
}

/// Folding the same parameters in twice is the same as folding them once.
pub proof fn lemma_settings_merge_absorbs(a: Settings, b: Settings)
    ensures
        a.spec_merge(b).spec_merge(b) == a.spec_merge(b),
{
}

/// A DATA frame: a chunk of a stream's payload, possibly ending the stream.
#[derive(Debug)]
pub struct Data {
    pub stream_id: StreamId,
    pub payload: Bytes,
    pub eof: bool,
}

/// A HEADERS frame after header-block decoding: pseudo-header fields, the
/// regular header fields, and the END_STREAM flag.
#[derive(Debug)]
pub struct Headers {
    pub stream_id: StreamId,
    pub pseudo: PseudoHeaders,
    pub headers: HeaderMap,
    pub eof: bool,
}

/// A PRIORITY frame. The engine accepts these and ignores their content.
#[derive(Clone, Copy, PartialEq, Eq, Structural, Debug)]
pub struct Priority {
    pub stream_id: StreamId,
}

/// A RST_STREAM frame: abrupt termination of one stream.
#[derive(Clone, Copy, PartialEq, Eq, Structural, Debug)]
pub struct Reset {
    pub stream_id: StreamId,
    pub reason: Reason,
}

impl Reset {
    pub fn new(stream_id: StreamId, reason: Reason) -> (r: Reset)
        ensures
            r == (Reset { stream_id, reason }),
    {
        Reset { stream_id, reason }
    }

    pub fn stream_id(&self) -> (r: StreamId)
        ensures
            r == self.stream_id,
    {
        self.stream_id
    }

    pub fn reason(&self) -> (r: Reason)
        ensures
            r == self.reason,
    {
        self.reason
    }
}

/// A GOAWAY frame: the last stream id the sender will honor, a reason code
/// and opaque debug data.
#[derive(Clone, PartialEq, Eq, Debug)]
pub struct GoAway {
    pub reason: Reason,
    pub last_stream_id: StreamId,
    pub data: Vec<u8>,
}

impl GoAway {
    pub fn new(reason: Reason) -> (r: GoAway)
        ensures
            r.reason == reason,
            r.last_stream_id.id == 0,
            r.data@ == Seq::<u8>::empty(),
    {
        GoAway { reason, last_stream_id: StreamId { id: 0 }, data: Vec::new() }
    }

    pub fn set_last_stream_id(self, id: StreamId) -> (r: GoAway)
        ensures
            r == (GoAway { last_stream_id: id, ..self }),
    {
        GoAway { last_stream_id: id, ..self }
    }

    /// Replaces the debug payload with the bytes of the given text.
    pub fn set_data(self, text: &str) -> (r: GoAway)
        ensures
            r.reason == self.reason,
            r.last_stream_id == self.last_stream_id,
            r.data@ == text.spec_bytes(),
    {
        let data = slice_to_vec(text.as_bytes());
        GoAway { data, ..self }
    }

    /// Appends raw octets to the debug payload.
    pub fn append_bytes(self, more: &Vec<u8>) -> (r: GoAway)
        ensures
            r.reason == self.reason,
            r.last_stream_id == self.last_stream_id,
            r.data@ == self.data@ + more@,
    {
        let mut data = self.data;
        let mut i: usize = 0;
        while i < more.len()
            invariant
                0 <= i <= more@.len(),
                data@ == self.data@ + more@.take(i as int),
            decreases more@.len() - i,
        {
            data.push(more[i]);
            proof {
                assert(data@ =~= self.data@ + more@.take(i + 1));
            }
            i = i + 1;
        }
        proof {
            assert(more@.take(more@.len() as int) =~= more@);
        }
        GoAway { data, reason: self.reason, last_stream_id: self.last_stream_id }
    }

    /// Appends the bytes of the given text to the debug payload.
    pub fn append_data(self, text: &str) -> (r: GoAway)
        ensures
            r.reason == self.reason,
            r.last_stream_id == self.last_stream_id,
            r.data@ == self.data@ + text.spec_bytes(),
    {
        let mut data = self.data;
        let mut tail = slice_to_vec(text.as_bytes());
        data.append(&mut tail);
        GoAway { data, reason: self.reason, last_stream_id: self.last_stream_id }
    }

    pub fn reason(&self) -> (r: Reason)
        ensures
            r == self.reason,
    {
        self.reason
    }
}

/// A WINDOW_UPDATE frame: grants the peer `size_increment` more octets at
/// stream or connection level.
#[derive(Clone, Copy, PartialEq, Eq, Structural, Debug)]
pub struct WindowUpdate {
    pub stream_id: StreamId,
    pub size_increment: u32,
}

/// A typed HTTP/2 frame, as the engine consumes and produces them.
#[derive(Debug)]
pub enum Frame {
    Data(Data),
    Headers(Headers),
    Priority(Priority),
    Reset(Reset),
    Settings(Settings),
    Ping(ping::Ping),
    GoAway(GoAway),
    WindowUpdate(WindowUpdate),
}

impl Frame {
    /// The stream this frame belongs to; connection-level frames carry id 0.
    pub open spec fn spec_stream_id(self) -> StreamId {
        match self {
            Frame::Data(f) => f.stream_id,
            Frame::Headers(f) => f.stream_id,
            Frame::Priority(f) => f.stream_id,
            Frame::Reset(f) => f.stream_id,
            Frame::Settings(_) => StreamId { id: 0 },
            Frame::Ping(_) => StreamId { id: 0 },
            Frame::GoAway(_) => StreamId { id: 0 },
            Frame::WindowUpdate(f) => f.stream_id,
        }
    }
}

impl From<ping::Ping> for Frame {
    fn from(src: ping::Ping) -> (r: Frame) {
        Frame::Ping(src)
    }
}

impl vstd::std_specs::convert::FromSpecImpl<ping::Ping> for Frame {
    open spec fn obeys_from_spec() -> bool {
        true
    }

    open spec fn from_spec(src: ping::Ping) -> Frame {
        Frame::Ping(src)
    }
}

/// The 24-octet connection preface a client writes to signal HTTP/2:
/// `PRI * HTTP/2.0\r\n\r\nSM\r\n\r\n`.
pub open spec fn preface_spec() -> Seq<u8> {
    "PRI * HTTP/2.0\r\n\r\nSM\r\n\r\n".spec_bytes()
}

pub fn preface() -> (r: Vec<u8>)
    ensures
        r@ == preface_spec(),
{
    slice_to_vec("PRI * HTTP/2.0\r\n\r\nSM\r\n\r\n".as_bytes())
}

} // verus!
