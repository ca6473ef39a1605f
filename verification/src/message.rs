//! Application-visible message events: the lazy sequence each stream
//! produces in strict order Headers, Data*, Eof.

use vstd::prelude::*;
use ntex_bytes::Bytes;
use ntex_http::HeaderMap;
use crate::frame::{PseudoHeaders, Reason, StreamId};

verus! {

/// One event of a stream, together with the stream it belongs to.
#[derive(Debug)]
pub struct Message {
    pub stream: StreamId,
    pub kind: MessageKind,
}

#[derive(Debug)]
pub enum MessageKind {
    /// Emitted once per HEADERS frame, initial or trailers.
    Headers { pseudo: PseudoHeaders, headers: HeaderMap, eof: bool },
    /// An intermediate payload chunk without END_STREAM.
    Data(Bytes),
    /// The terminal event; exactly one per stream.
    Eof(StreamEof),
    /// Sentinel left behind when a message is moved out.
    Empty,
}

/// How a stream ended.
#[derive(Debug)]
pub enum StreamEof {
    Data(Bytes),
    Trailers(HeaderMap),
    Reset(Reason),
}

impl Message {
    /// A headers event for the given stream.
    pub fn new(pseudo: PseudoHeaders, headers: HeaderMap, eof: bool, stream: StreamId) -> (r:
        Message)
        ensures
            r.stream == stream,
            r.kind matches MessageKind::Headers { pseudo: p, headers: h, eof: e } && p == pseudo
                && h == headers && e == eof,
    {
        Message { stream, kind: MessageKind::Headers { pseudo, headers, eof } }
    }

    /// A payload event: a terminal `Eof(Data(..))` when the stream ends
    /// here, an intermediate `Data(..)` otherwise.
    pub fn data(data: Bytes, eof: bool, stream: StreamId) -> (r: Message)
        ensures
            r.stream == stream,
            eof ==> (r.kind matches MessageKind::Eof(StreamEof::Data(d)) && d == data),
            !eof ==> (r.kind matches MessageKind::Data(d) && d == data),
    {
        if eof {
            Message { stream, kind: MessageKind::Eof(StreamEof::Data(data)) }
        } else {
            Message { stream, kind: MessageKind::Data(data) }
        }
    }

    pub fn kind(&self) -> (r: &MessageKind)
        ensures
            *r == self.kind,
    {
        &self.kind
    }

    /// Moves the event out, leaving the sentinel behind.
    pub fn take_kind(&mut self) -> (r: MessageKind)
        ensures
            r == old(self).kind,
            final(self).stream == old(self).stream,
            final(self).kind is Empty,
    {
        self.kind.take()
    }

    pub fn stream(&self) -> (r: StreamId)
        ensures
            r == self.stream,
    {
        self.stream
    }
}

impl MessageKind {
    /// Moves the event out, leaving the sentinel behind.
    pub fn take(&mut self) -> (r: MessageKind)
        ensures
            r == *old(self),
            *final(self) is Empty,
    {
        let mut out = MessageKind::Empty;
        core::mem::swap(self, &mut out);
        out
    }
}

} // verus!
