//! Connection state: settings exchange, connection-level flow control,
//! GOAWAY coordination, stream-id discipline, the stream registry with its
//! reset cache, and inbound frame dispatch into the registry.

use vstd::prelude::*;
use crate::error::{OperationError, ProtocolError, RecvError, StreamError, StreamErrorInner};
use crate::flow::window_inc;
use crate::buffer::{bytes_len, bytes_view};
use crate::frame::{
    Data, Headers, Method, PseudoHeaders, Reason, Reset, Settings, StreamId, WindowUpdate,
    DEFAULT_INITIAL_WINDOW_SIZE, DEFAULT_MAX_FRAME_SIZE, MAX_MAX_FRAME_SIZE, MAX_STREAM_ID,
    MAX_WINDOW_SIZE,
};
use ntex_http::HeaderMap;
use crate::message::{Message, MessageKind, StreamEof};
use ntex_bytes::Bytes;
use crate::stream::{Stream, StreamState};

verus! {

/// The negotiated parameters a connection starts with.
#[derive(Clone, Copy, PartialEq, Eq, Structural, Debug)]
pub struct Config {
    /// Stream-level window we announce for inbound data.
    pub local_init_window_sz: u32,
    /// Connection-level window we want for inbound data.
    pub local_init_connection_window_sz: u32,
    /// Stream-level window for outbound data until the peer's SETTINGS
    /// arrive.
    pub remote_init_window_sz: u32,
    /// The first stream id this side may allocate: 1 for clients, 2 for
    /// servers.
    pub local_next_stream_id: u32,
    /// Extended CONNECT (`:protocol`) is negotiated.
    pub extended_connect_protocol_enabled: bool,
    /// How long a reset stream keeps absorbing late frames, in
    /// milliseconds.
    pub local_reset_duration_ms: u64,
    /// How many reset streams are remembered at most.
    pub local_reset_max: usize,
    /// Cap on peer-initiated streams; `None` means unbounded.
    pub remote_max_initiated: Option<u32>,
}

impl Config {
    pub open spec fn wf(self) -> bool {
        &&& self.local_init_window_sz <= MAX_WINDOW_SIZE
        &&& self.local_init_connection_window_sz <= MAX_WINDOW_SIZE
        &&& self.local_init_connection_window_sz >= DEFAULT_INITIAL_WINDOW_SIZE
        &&& self.remote_init_window_sz <= MAX_WINDOW_SIZE
        &&& (self.local_next_stream_id == 1 || self.local_next_stream_id == 2)
    }

    /// The configuration a client connection starts with, derived from the
    /// SETTINGS it sends during the handshake.
    pub fn client(
        settings: &Settings,
        connection_window_sz: u32,
        reset_duration_ms: u64,
        reset_max: usize,
    ) -> (r: Config)
        requires
            settings.wf(),
            DEFAULT_INITIAL_WINDOW_SIZE <= connection_window_sz <= MAX_WINDOW_SIZE,
        ensures
            r.wf(),
            r.local_init_window_sz == settings.spec_initial_window_size(),
            r.local_init_connection_window_sz == connection_window_sz,
            r.remote_init_window_sz == DEFAULT_INITIAL_WINDOW_SIZE,
            r.local_next_stream_id == 1,
            r.extended_connect_protocol_enabled == (settings.enable_connect_protocol matches
                Some(v) && v == 1),
            r.local_reset_duration_ms == reset_duration_ms,
            r.local_reset_max == reset_max,
            r.remote_max_initiated == settings.max_concurrent_streams,
    {
        Config {
            local_init_window_sz: match settings.initial_window_size() {
                Some(v) => v,
                None => DEFAULT_INITIAL_WINDOW_SIZE,
            },
            local_init_connection_window_sz: connection_window_sz,
            remote_init_window_sz: DEFAULT_INITIAL_WINDOW_SIZE,
            local_next_stream_id: 1,
            extended_connect_protocol_enabled: settings.is_extended_connect_protocol_enabled(),
            local_reset_duration_ms: reset_duration_ms,
            local_reset_max: reset_max,
            remote_max_initiated: settings.max_concurrent_streams(),
        }
    }

    /// The configuration a server connection starts with.
    pub fn server(
        settings: &Settings,
        connection_window_sz: u32,
        reset_duration_ms: u64,
        reset_max: usize,
    ) -> (r: Config)
        requires
            settings.wf(),
            DEFAULT_INITIAL_WINDOW_SIZE <= connection_window_sz <= MAX_WINDOW_SIZE,
        ensures
            r.wf(),
            r == (Config {
                local_next_stream_id: 2,
                ..Config {
                    local_init_window_sz: settings.spec_initial_window_size(),
                    local_init_connection_window_sz: connection_window_sz,
                    remote_init_window_sz: DEFAULT_INITIAL_WINDOW_SIZE,
                    local_next_stream_id: 2,
                    extended_connect_protocol_enabled: (
                    settings.enable_connect_protocol matches Some(v) && v == 1),
                    local_reset_duration_ms: reset_duration_ms,
                    local_reset_max: reset_max,
                    remote_max_initiated: settings.max_concurrent_streams,
                }
            }),
    {
        Config { local_next_stream_id: 2, ..Config::client(
            settings,
            connection_window_sz,
            reset_duration_ms,
            reset_max,
        ) }
    }
}

/// What `send_data` produced: the DATA frames the windows covered, and
/// the unsent tail when they did not cover everything — the producer is
/// parked with it until a window opens.
#[derive(Debug)]
pub struct SendData {
    pub frames: Vec<Data>,
    pub blocked: Option<Bytes>,
}

/// What a GOAWAY that was sent or received recorded.
#[derive(Clone, Copy, PartialEq, Eq, Structural, Debug)]
pub struct GoAwayInfo {
    pub last_stream_id: u32,
    pub reason: Reason,
}

/// One remembered reset stream: late frames for it are absorbed until the
/// deadline passes.
#[derive(Clone, Copy, PartialEq, Eq, Structural, Debug)]
pub struct ResetEntry {
    pub id: u32,
    pub deadline_ms: u64,
}

/// The connection: exclusive owner of the stream registry, both flow
/// windows, the settings state and the GOAWAY bookkeeping.
#[derive(Debug)]
pub struct Connection {
    pub config: Config,
    /// The SETTINGS we announced last (never an ACK frame).
    pub local_settings: Settings,
    /// The peer's parameters, folded over every SETTINGS received.
    pub remote_settings: Settings,
    /// We sent SETTINGS and its acknowledgement is still outstanding.
    pub settings_ack_pending: bool,
    /// Connection-level window for outbound data.
    pub send_flow: i32,
    /// Connection-level window for inbound data.
    pub recv_flow: i32,
    /// Consumed connection-level capacity not yet returned to the peer.
    pub pending_window_update: u32,
    /// The next stream id this side allocates (grows by 2).
    pub next_stream_id: u32,
    /// The highest peer-initiated stream id observed.
    pub last_peer_stream_id: u32,
    /// The live streams.
    pub streams: Vec<Stream>,
    /// Recently reset or closed streams still absorbing late frames.
    pub reset_cache: Vec<ResetEntry>,
    pub goaway_sent: Option<GoAwayInfo>,
    pub goaway_received: Option<GoAwayInfo>,
    /// A connection-fatal error was recorded; the connection is closing.
    pub failed: bool,
}

impl Connection {
    /// A stream id with the parity this side allocates.
    pub open spec fn spec_is_local_id(self, id: u32) -> bool {
        id % 2 == self.config.local_next_stream_id % 2
    }

    pub open spec fn spec_has_stream(self, id: u32) -> bool {
        exists|i: int| 0 <= i < self.streams@.len() && (#[trigger] self.streams@[i]).id.id == id
    }

    pub open spec fn spec_stream_idx(self, id: u32) -> int {
        choose|i: int| 0 <= i < self.streams@.len() && (#[trigger] self.streams@[i]).id.id == id
    }

    /// The registered stream with the given id.
    pub open spec fn spec_stream(self, id: u32) -> Stream {
        self.streams@[self.spec_stream_idx(id)]
    }

    /// The id is remembered in the reset cache, expired or not.
    pub open spec fn spec_in_reset_cache(self, id: u32) -> bool {
        exists|i: int| 0 <= i < self.reset_cache@.len() && (#[trigger] self.reset_cache@[i]).id
            == id
    }

    /// The id is remembered in the reset cache and its deadline has not
    /// passed: late frames for it are still absorbed.
    pub open spec fn spec_in_live_reset_cache(self, id: u32, now_ms: u64) -> bool {
        exists|i: int| 0 <= i < self.reset_cache@.len() && (#[trigger] self.reset_cache@[i]).id
            == id && self.reset_cache@[i].deadline_ms >= now_ms
    }

    /// Stream-level window we announce on new inbound streams.
    pub open spec fn spec_local_window(self) -> u32 {
        self.local_settings.spec_initial_window_size()
    }

    /// Stream-level window the peer grants on new outbound streams.
    pub open spec fn spec_remote_window(self) -> u32 {
        self.remote_settings.spec_initial_window_size()
    }

    /// Well-formedness of the whole connection:
    /// - every stream is well-formed, ids are unique and nonzero;
    /// - peer-initiated stream ids never exceed `last_peer_stream_id`;
    /// - locally-initiated stream ids stay below `next_stream_id`;
    /// - the reset cache never exceeds its configured bound;
    /// - window bookkeeping stays within the 31-bit window space.
    pub open spec fn wf(self) -> bool {
        &&& self.config.wf()
        &&& self.local_settings.wf() && !self.local_settings.ack
        &&& self.remote_settings.wf() && !self.remote_settings.ack
        &&& self.next_stream_id % 2 == self.config.local_next_stream_id % 2
        &&& self.config.local_next_stream_id <= self.next_stream_id <= MAX_STREAM_ID + 2
        &&& self.last_peer_stream_id <= MAX_STREAM_ID
        &&& self.recv_flow + self.pending_window_update <= MAX_WINDOW_SIZE
        &&& (forall|i: int| 0 <= i < self.streams@.len() ==> (#[trigger] self.streams@[i]).wf())
        &&& (forall|i: int, j: int|
            0 <= i < j < self.streams@.len() ==> self.streams@[i].id.id
                != self.streams@[j].id.id)
        &&& (forall|i: int|
            0 <= i < self.streams@.len() && self.spec_is_local_id(
                (#[trigger] self.streams@[i]).id.id,
            ) ==> self.streams@[i].id.id < self.next_stream_id)
        &&& (forall|i: int|
            0 <= i < self.streams@.len() && !self.spec_is_local_id(
                (#[trigger] self.streams@[i]).id.id,
            ) ==> self.streams@[i].id.id <= self.last_peer_stream_id)
        &&& self.reset_cache@.len() <= self.config.local_reset_max
    }

    /// A fresh connection: default windows, no streams, nothing remembered.
    pub fn new(config: Config) -> (r: Connection)
        requires
            config.wf(),
        ensures
            r.wf(),
            r.config == config,
            r.local_settings.initial_window_size == Some(config.local_init_window_sz),
            r.remote_settings == Settings::spec_default(),
            !r.settings_ack_pending,
            r.send_flow == DEFAULT_INITIAL_WINDOW_SIZE,
            r.recv_flow == DEFAULT_INITIAL_WINDOW_SIZE,
            r.pending_window_update == 0,
            r.next_stream_id == config.local_next_stream_id,
            r.last_peer_stream_id == 0,
            r.streams@.len() == 0,
            r.reset_cache@.len() == 0,
            r.goaway_sent is None,
            r.goaway_received is None,
            !r.failed,
    {
        let mut local_settings = Settings::new();
        local_settings.set_initial_window_size(Some(config.local_init_window_sz));
        if config.extended_connect_protocol_enabled {
            local_settings.set_enable_connect_protocol(Some(1));
        }
        Connection {
            config,
            local_settings,
            remote_settings: Settings::new(),
            settings_ack_pending: false,
            send_flow: DEFAULT_INITIAL_WINDOW_SIZE as i32,
            recv_flow: DEFAULT_INITIAL_WINDOW_SIZE as i32,
            pending_window_update: 0,
            next_stream_id: config.local_next_stream_id,
            last_peer_stream_id: 0,
            streams: Vec::new(),
            reset_cache: Vec::new(),
            goaway_sent: None,
            goaway_received: None,
            failed: false,
        }
    }

    /// The WINDOW_UPDATE that grows the connection-level receive window to
    /// its configured size, sent right after the handshake; `None` when the
    /// configured size is the default.
    pub fn initial_window_update(&mut self) -> (r: Option<WindowUpdate>)
        requires
            old(self).wf(),
            old(self).recv_flow == DEFAULT_INITIAL_WINDOW_SIZE,
            old(self).pending_window_update == 0,
        ensures
            final(self).wf(),
            *final(self) == (Connection { recv_flow: final(self).recv_flow, ..*old(self) }),
            final(self).recv_flow == old(self).config.local_init_connection_window_sz,
            old(self).config.local_init_connection_window_sz > DEFAULT_INITIAL_WINDOW_SIZE
                ==> r == Some(WindowUpdate {
                stream_id: StreamId { id: 0 },
                size_increment: (old(self).config.local_init_connection_window_sz
                    - DEFAULT_INITIAL_WINDOW_SIZE) as u32,
            }),
            old(self).config.local_init_connection_window_sz == DEFAULT_INITIAL_WINDOW_SIZE
                ==> r is None,
    {
        let target = self.config.local_init_connection_window_sz;
        if target > DEFAULT_INITIAL_WINDOW_SIZE {
            let delta = target - DEFAULT_INITIAL_WINDOW_SIZE;
            self.recv_flow = target as i32;
            Some(WindowUpdate { stream_id: StreamId::zero(), size_increment: delta })
        } else {
            None
        }
    }

    /// Index of the stream with the given id in the registry.
    fn find_stream(&self, id: u32) -> (r: Option<usize>)
        requires
            self.wf(),
        ensures
            match r {
                Some(i) => i < self.streams@.len() && self.streams@[i as int].id.id == id
                    && self.spec_has_stream(id) && self.spec_stream(id)
                    == self.streams@[i as int],
                None => !self.spec_has_stream(id),
            },
    {
        let mut i: usize = 0;
        while i < self.streams.len()
            invariant
                self.wf(),
                0 <= i <= self.streams@.len(),
                forall|j: int| 0 <= j < i ==> (#[trigger] self.streams@[j]).id.id != id,
            decreases self.streams@.len() - i,
        {
            if self.streams[i].id.id == id {
                proof {
                    self.lemma_stream_idx_unique(i as int, id);
                }
                return Some(i);
            }
            i = i + 1;
        }
        None
    }

    /// With unique ids, the index found is the index `spec_stream` uses.
    proof fn lemma_stream_idx_unique(&self, i: int, id: u32)
        requires
            self.wf(),
            0 <= i < self.streams@.len(),
            self.streams@[i].id.id == id,
        ensures
            self.spec_has_stream(id),
            self.spec_stream_idx(id) == i,
            self.spec_stream(id) == self.streams@[i],
    {
        assert(self.spec_has_stream(id));
        let j = self.spec_stream_idx(id);
        assert(0 <= j < self.streams@.len() && self.streams@[j].id.id == id);
        if i < j {
            assert(self.streams@[i].id.id != self.streams@[j].id.id);
        } else if j < i {
            assert(self.streams@[j].id.id != self.streams@[i].id.id);
        }
    }

    /// Whether the id is still absorbed by the reset cache at this time.
    fn reset_cache_lookup(&self, id: u32, now_ms: u64) -> (r: bool)
        ensures
            r == self.spec_in_live_reset_cache(id, now_ms),
    {
        let mut i: usize = 0;
        while i < self.reset_cache.len()
            invariant
                0 <= i <= self.reset_cache@.len(),
                forall|j: int|
                    0 <= j < i ==> !((#[trigger] self.reset_cache@[j]).id == id
                        && self.reset_cache@[j].deadline_ms >= now_ms),
            decreases self.reset_cache@.len() - i,
        {
            let e = self.reset_cache[i];
            if e.id == id && e.deadline_ms >= now_ms {
                return true;
            }
            i = i + 1;
        }
        false
    }

    /// Remembers a reset or cleanly-closed stream until `now + duration`.
    /// Expired entries are swept out on the way; if the cache is still at
    /// capacity the oldest entry is evicted. The cache never exceeds its
    /// configured bound.
    fn cache_insert(&mut self, id: u32, now_ms: u64)
        requires
            old(self).wf(),
        ensures
            final(self).wf(),
            *final(self) == (Connection { reset_cache: final(self).reset_cache, ..*old(self) }),
            final(self).reset_cache@.len() <= old(self).config.local_reset_max,
            old(self).config.local_reset_max > 0 ==> final(self).spec_in_reset_cache(id),
    {
        let deadline_ms = if now_ms <= u64::MAX - self.config.local_reset_duration_ms {
            now_ms + self.config.local_reset_duration_ms
        } else {
            u64::MAX
        };
        let mut kept: Vec<ResetEntry> = Vec::new();
        let mut i: usize = 0;
        while i < self.reset_cache.len()
            invariant
                0 <= i <= self.reset_cache@.len(),
                kept@.len() <= i,
            decreases self.reset_cache@.len() - i,
        {
            let e = self.reset_cache[i];
            if e.deadline_ms >= now_ms {
                kept.push(e);
            }
            i = i + 1;
        }
        if self.config.local_reset_max == 0 {
            self.reset_cache = Vec::new();
            return ;
        }
        while kept.len() >= self.config.local_reset_max
            invariant
                self.config.local_reset_max > 0,
            decreases kept@.len(),
        {
            kept.remove(0);
        }
        kept.push(ResetEntry { id, deadline_ms });
        proof {
            assert(kept@[kept@.len() - 1].id == id);
        }
        self.reset_cache = kept;
    }

    /// The id belongs to a stream that was never opened: a local-parity id
    /// not yet allocated, or a peer-parity id above everything observed.
    pub open spec fn spec_is_idle(self, id: u32) -> bool {
        &&& !self.spec_has_stream(id)
        &&& if self.spec_is_local_id(id) {
            id >= self.next_stream_id
        } else {
            id > self.last_peer_stream_id
        }
    }

    /// What handling an inbound WINDOW_UPDATE leaves behind, exactly, as a
    /// relation between the state before, the frame, the state after and
    /// the result.
    pub open spec fn spec_recv_window_update_post(pre: Connection, frame: WindowUpdate, post: Connection, r: Result<(), RecvError>) -> bool {
        &&& (frame.size_increment == 0 && frame.stream_id.id == 0 ==> (r matches Err(
                RecvError::Connection(ProtocolError::ZeroWindowUpdateValue),
            ) && post == pre))
        &&& (frame.size_increment == 0 && frame.stream_id.id != 0 ==> (r matches Err(
                RecvError::Stream(inner),
            ) && inner == (StreamErrorInner {
                stream: frame.stream_id,
                kind: StreamError::WindowZeroUpdateValue,
            }) && post == pre))
        &&& (frame.size_increment > 0 && frame.stream_id.id == 0 ==> (if pre.send_flow
                + frame.size_increment <= MAX_WINDOW_SIZE {
                r is Ok && post == (Connection {
                    send_flow: (pre.send_flow + frame.size_increment) as i32,
                    ..pre
                })
            } else {
                (r matches Err(RecvError::Connection(ProtocolError::Reason(
                    Reason::FlowControlError,
                )))) && post == pre
            }))
        &&& (frame.size_increment > 0 && frame.stream_id.id != 0 && pre.spec_has_stream(
                frame.stream_id.id,
            ) ==> (if pre.spec_stream(frame.stream_id.id).send_flow + frame.size_increment
                <= MAX_WINDOW_SIZE {
                r is Ok && post == (Connection {
                    streams: post.streams,
                    ..pre
                }) && post.streams@ == pre.streams@.update(
                    pre.spec_stream_idx(frame.stream_id.id),
                    Stream {
                        send_flow: (pre.spec_stream(frame.stream_id.id).send_flow
                            + frame.size_increment) as i32,
                        ..pre.spec_stream(frame.stream_id.id)
                    },
                )
            } else {
                (r matches Err(RecvError::Stream(inner)) && inner == (StreamErrorInner {
                    stream: frame.stream_id,
                    kind: StreamError::WindowOverflowed,
                })) && post == pre
            }))
        &&& (frame.size_increment > 0 && frame.stream_id.id != 0 && !pre.spec_has_stream(
                frame.stream_id.id,
            ) ==> post == pre && (if pre.spec_is_idle(frame.stream_id.id) {
                r matches Err(RecvError::Connection(ProtocolError::StreamIdle(_)))
            } else {
                r is Ok
            }))
    }

    /// Handles an inbound WINDOW_UPDATE frame.
    ///
    /// Increment zero is illegal: at connection level it is a connection
    /// error, at stream level a stream error, both PROTOCOL_ERROR. A legal
    /// increment grows the addressed window; growing past 2^31 - 1 is a
    /// connection error at connection level and a stream error at stream
    /// level. Updates for idle streams are connection errors; updates for
    /// finished streams are ignored.
    pub fn recv_window_update(&mut self, frame: WindowUpdate) -> (r: Result<(), RecvError>)
        requires
            old(self).wf(),
        ensures
            final(self).wf(),
            Connection::spec_recv_window_update_post(*old(self), frame, *final(self), r),
    {
        let id = frame.stream_id.id;
        if frame.size_increment == 0 {
            if id == 0 {
                return Err(RecvError::Connection(ProtocolError::ZeroWindowUpdateValue));
            } else {
                return Err(RecvError::Stream(StreamErrorInner::new(
                    frame.stream_id,
                    StreamError::WindowZeroUpdateValue,
                )));
            }
        }
        if id == 0 {
            match window_inc(self.send_flow, frame.size_increment) {
                Some(w) => {
                    self.send_flow = w;
                    Ok(())
                },
                None => Err(RecvError::Connection(ProtocolError::Reason(
                    Reason::FlowControlError,
                ))),
            }
        } else {
            match self.find_stream(id) {
                Some(i) => {
                    let s = self.streams[i];
                    match window_inc(s.send_flow, frame.size_increment) {
                        Some(w) => {
                            let ghost pre = *self;
                            let updated = Stream { send_flow: w, ..s };
                            vstd::std_specs::core::index_set(&mut self.streams, i, updated);
                            proof {
                                self.lemma_wf_after_stream_update(pre, i as int, updated);
                            }
                            Ok(())
                        },
                        None => Err(RecvError::Stream(StreamErrorInner::new(
                            frame.stream_id,
                            StreamError::WindowOverflowed,
                        ))),
                    }
                },
                None => {
                    let idle = if id % 2 == self.config.local_next_stream_id % 2 {
                        id >= self.next_stream_id
                    } else {
                        id > self.last_peer_stream_id
                    };
                    if idle {
                        Err(RecvError::Connection(ProtocolError::StreamIdle("WINDOW_UPDATE")))
                    } else {
                        Ok(())
                    }
                },
            }
        }
    }

    /// Replacing one stream by a well-formed stream with the same id keeps
    /// the connection well-formed, when nothing else changed.
    proof fn lemma_wf_after_stream_update(&self, pre: Connection, i: int, s: Stream)
        requires
            pre.wf(),
            0 <= i < pre.streams@.len(),
            s.wf(),
            s.id == pre.streams@[i].id,
            *self == (Connection { streams: self.streams, ..pre }),
            self.streams@ == pre.streams@.update(i, s),
        ensures
            self.wf(),
    {
        assert forall|k: int| 0 <= k < self.streams@.len() implies (
        #[trigger] self.streams@[k]).wf() by {
            if k != i {
                assert(self.streams@[k] == pre.streams@[k]);
            }
        }
        assert forall|k: int| 0 <= k < self.streams@.len() implies (
        #[trigger] self.streams@[k]).id == pre.streams@[k].id by {
            if k != i {
                assert(self.streams@[k] == pre.streams@[k]);
            }
        }
    }

    /// Removing one stream keeps the connection well-formed, when nothing
    /// else relevant changed; afterwards its id is gone from the registry.
    proof fn lemma_wf_after_stream_remove(&self, pre: Connection, i: int)
        requires
            pre.wf(),
            0 <= i < pre.streams@.len(),
            *self == (Connection { streams: self.streams, ..pre }),
            self.streams@ == pre.streams@.remove(i),
        ensures
            self.wf(),
            !self.spec_has_stream(pre.streams@[i].id.id),
            forall|id: u32|
                #[trigger] self.spec_has_stream(id) ==> pre.spec_has_stream(id) && id
                    != pre.streams@[i].id.id,
    {
        assert forall|k: int| 0 <= k < self.streams@.len() implies (
        #[trigger] self.streams@[k]).wf() && self.streams@[k] == (if k < i {
            pre.streams@[k]
        } else {
            pre.streams@[k + 1]
        }) by {}
        assert forall|id: u32| #[trigger] self.spec_has_stream(id) implies pre.spec_has_stream(
            id,
        ) && id != pre.streams@[i].id.id by {
            let k = choose|k: int|
                0 <= k < self.streams@.len() && (#[trigger] self.streams@[k]).id.id == id;
            if k < i {
                assert(pre.streams@[k].id.id == id);
                if id == pre.streams@[i].id.id {
                    assert(pre.streams@[k].id.id != pre.streams@[i].id.id);
                }
            } else {
                assert(pre.streams@[k + 1].id.id == id);
                if id == pre.streams@[i].id.id {
                    assert(pre.streams@[i].id.id != pre.streams@[k + 1].id.id);
                }
            }
        }
        if self.spec_has_stream(pre.streams@[i].id.id) {
            assert(false);
        }
    }

    /// What handling an inbound RST_STREAM leaves behind, exactly.
    pub open spec fn spec_recv_rst_stream_post(pre: Connection, frame: Reset, post: Connection, r: Result<Option<Message>, RecvError>) -> bool {
        &&& (frame.stream_id.id == 0 ==> (r matches Err(RecvError::Connection(
                ProtocolError::InvalidStreamId,
            )) && post == pre))
        &&& (frame.stream_id.id != 0 && pre.spec_is_idle(frame.stream_id.id) ==> (
            r matches Err(RecvError::Connection(ProtocolError::StreamIdle(_))) && post
                == pre))
        &&& (frame.stream_id.id != 0 && !pre.spec_has_stream(frame.stream_id.id)
                && !pre.spec_is_idle(frame.stream_id.id) ==> (r matches Ok(m) && m is None && post
                == pre))
        &&& (frame.stream_id.id != 0 && pre.spec_has_stream(frame.stream_id.id) ==> ({
                &&& !post.spec_has_stream(frame.stream_id.id)
                &&& post.streams@ == pre.streams@.remove(
                    pre.spec_stream_idx(frame.stream_id.id),
                )
                &&& (post.config.local_reset_max > 0 ==> post.spec_in_reset_cache(
                    frame.stream_id.id,
                ))
                &&& (pre.spec_stream(frame.stream_id.id).eof_delivered ==> r == Ok::<
                    Option<Message>,
                    RecvError,
                >(None))
                &&& (!pre.spec_stream(frame.stream_id.id).eof_delivered ==> r == Ok::<
                    Option<Message>,
                    RecvError,
                >(Some(Message {
                    stream: frame.stream_id,
                    kind: MessageKind::Eof(StreamEof::Reset(frame.reason)),
                })))
            }))
    }

    /// Handles an inbound RST_STREAM frame: the stream (if any) leaves the
    /// registry, its id is remembered in the reset cache, and the
    /// application sees exactly one terminal `Eof(Reset)` event — none if a
    /// terminal event was already delivered.
    pub fn recv_rst_stream(&mut self, frame: Reset, now_ms: u64) -> (r: Result<
        Option<Message>,
        RecvError,
    >)
        requires
            old(self).wf(),
        ensures
            final(self).wf(),
            Connection::spec_recv_rst_stream_post(*old(self), frame, *final(self), r),
    {
        let id = frame.stream_id.id;
        if id == 0 {
            return Err(RecvError::Connection(ProtocolError::InvalidStreamId));
        }
        match self.find_stream(id) {
            Some(i) => {
                let ghost pre = *self;
                let s = self.streams[i];
                proof {
                    self.lemma_stream_idx_unique(i as int, id);
                }
                self.streams.remove(i);
                proof {
                    self.lemma_wf_after_stream_remove(pre, i as int);
                }
                self.cache_insert(id, now_ms);
                if s.eof_delivered {
                    Ok(None)
                } else {
                    Ok(Some(Message {
                        stream: frame.stream_id,
                        kind: MessageKind::Eof(StreamEof::Reset(frame.reason)),
                    }))
                }
            },
            None => {
                let idle = if id % 2 == self.config.local_next_stream_id % 2 {
                    id >= self.next_stream_id
                } else {
                    id > self.last_peer_stream_id
                };
                if idle {
                    Err(RecvError::Connection(ProtocolError::StreamIdle("RST_STREAM")))
                } else {
                    Ok(None)
                }
            },
        }
    }

    /// A stream the peer's GOAWAY abandons: locally initiated, above the
    /// last stream id the peer promises to honor.
    pub open spec fn spec_goaway_aborts(self, id: u32, last_stream_id: u32) -> bool {
        self.spec_is_local_id(id) && id > last_stream_id
    }

    /// What handling an inbound GOAWAY leaves behind, exactly: the draining
    /// mark, the closed local streams above the last honored id, and the
    /// list of their ids.
    pub open spec fn spec_recv_go_away_post(pre: Connection, last_stream_id: u32, reason: Reason, post: Connection, aborted: Seq<u32>) -> bool {
        &&& (post == (Connection {
                goaway_received: Some(GoAwayInfo { last_stream_id, reason }),
                streams: post.streams,
                ..pre
            }))
        &&& (post.streams@.len() == pre.streams@.len())
        &&& (forall|k: int|
                0 <= k < pre.streams@.len() ==> post.streams@[k] == (if pre.spec_goaway_aborts((#[trigger] pre.streams@[k]).id.id, last_stream_id) {
                    Stream {
                        state: StreamState::Closed,
                        failed_reason: Some(reason),
                        eof_delivered: true,
                        ..pre.streams@[k]
                    }
                } else {
                    pre.streams@[k]
                }))
        &&& (forall|id: u32|
                #[trigger] aborted.contains(id) <==> (pre.spec_has_stream(id) && pre.spec_goaway_aborts(id, last_stream_id)))
    }

    /// Handles an inbound GOAWAY: the connection starts draining. Streams
    /// the peer will still honor continue untouched; locally-initiated
    /// streams above `last_stream_id` are closed with the GOAWAY's reason,
    /// and their ids are returned so the application can be told.
    pub fn recv_go_away(&mut self, last_stream_id: u32, reason: Reason) -> (aborted: Vec<u32>)
        requires
            old(self).wf(),
        ensures
            final(self).wf(),
            Connection::spec_recv_go_away_post(*old(self), last_stream_id, reason, *final(self), aborted@),
    {
        let ghost pre = *old(self);
        self.goaway_received = Some(GoAwayInfo { last_stream_id, reason });
        let mut aborted: Vec<u32> = Vec::new();
        let mut i: usize = 0;
        while i < self.streams.len()
            invariant
                pre.wf(),
                *self == (Connection {
                    goaway_received: Some(GoAwayInfo { last_stream_id, reason }),
                    streams: self.streams,
                    ..pre
                }),
                self.streams@.len() == pre.streams@.len(),
                0 <= i <= pre.streams@.len(),
                forall|k: int|
                    i <= k < pre.streams@.len() ==> self.streams@[k] == pre.streams@[k],
                forall|k: int|
                    0 <= k < i ==> self.streams@[k] == (if pre.spec_goaway_aborts(
                        (#[trigger] pre.streams@[k]).id.id,
                        last_stream_id,
                    ) {
                        Stream {
                            state: StreamState::Closed,
                            failed_reason: Some(reason),
                            eof_delivered: true,
                            ..pre.streams@[k]
                        }
                    } else {
                        pre.streams@[k]
                    }),
                forall|j: int|
                    0 <= j < i && pre.spec_goaway_aborts(
                        (#[trigger] pre.streams@[j]).id.id,
                        last_stream_id,
                    ) ==> aborted@.contains(pre.streams@[j].id.id),
                forall|id: u32|
                    #[trigger] aborted@.contains(id) ==> exists|j: int|
                        0 <= j < i && pre.streams@[j].id.id == id && pre.spec_goaway_aborts(
                            id,
                            last_stream_id,
                        ),
            decreases pre.streams@.len() - i,
        {
            let s = self.streams[i];
            let is_local = s.id.id % 2 == self.config.local_next_stream_id % 2;
            if is_local && s.id.id > last_stream_id {
                let ghost prev = aborted@;
                aborted.push(s.id.id);
                let marked = Stream {
                    state: StreamState::Closed,
                    failed_reason: Some(reason),
                    eof_delivered: true,
                    ..s
                };
                vstd::std_specs::core::index_set(&mut self.streams, i, marked);
                proof {
                    assert(aborted@ == prev.push(s.id.id));
                    assert forall|id: u32| #[trigger] aborted@.contains(id) implies exists|j: int|
                        0 <= j < i + 1 && pre.streams@[j].id.id == id && pre.spec_goaway_aborts(
                            id,
                            last_stream_id,
                        ) by {
                        let k = choose|k: int| 0 <= k < aborted@.len() && aborted@[k] == id;
                        if k < prev.len() {
                            assert(prev[k] == id);
                            assert(prev.contains(id));
                        } else {
                            assert(pre.streams@[i as int].id.id == id);
                        }
                    }
                    assert forall|j: int|
                        0 <= j < i + 1 && pre.spec_goaway_aborts(
                            (#[trigger] pre.streams@[j]).id.id,
                            last_stream_id,
                        ) implies aborted@.contains(pre.streams@[j].id.id) by {
                        if j < i {
                            assert(prev.contains(pre.streams@[j].id.id));
                            let k = choose|k: int|
                                0 <= k < prev.len() && prev[k] == pre.streams@[j].id.id;
                            assert(aborted@[k] == pre.streams@[j].id.id);
                        } else {
                            assert(aborted@[aborted@.len() - 1] == pre.streams@[j].id.id);
                        }
                    }
                }
            }
            i = i + 1;
        }
        proof {
            let post = *self;
            assert forall|k: int| 0 <= k < post.streams@.len() implies (
            #[trigger] post.streams@[k]).wf() && post.streams@[k].id == pre.streams@[k].id by {
                assert(pre.streams@[k].wf());
            }
            assert(post.wf());
            assert forall|id: u32| #[trigger] aborted@.contains(id) implies (
            pre.spec_has_stream(id) && pre.spec_goaway_aborts(id, last_stream_id)) by {
                let j = choose|j: int|
                    0 <= j < pre.streams@.len() && pre.streams@[j].id.id == id
                        && pre.spec_goaway_aborts(id, last_stream_id);
                assert(pre.spec_has_stream(id));
            }
            assert forall|id: u32|
                pre.spec_has_stream(id) && pre.spec_goaway_aborts(
                    id,
                    last_stream_id,
                ) implies #[trigger] aborted@.contains(id) by {
                let j = pre.spec_stream_idx(id);
                assert(pre.streams@[j].id.id == id);
            }
        }
        aborted
    }

    /// Why a received SETTINGS frame is rejected, if it is: ENABLE_PUSH
    /// must be 0 (push is unsupported), ENABLE_CONNECT_PROTOCOL must be
    /// boolean, INITIAL_WINDOW_SIZE must fit the 31-bit window space,
    /// MAX_FRAME_SIZE must lie in its legal range.
    pub open spec fn spec_settings_error(s: Settings) -> Option<Reason> {
        if s.enable_push matches Some(v) && v > 0 {
            Some(Reason::ProtocolError)
        } else if s.enable_connect_protocol matches Some(v) && v > 1 {
            Some(Reason::ProtocolError)
        } else if s.initial_window_size matches Some(v) && v > MAX_WINDOW_SIZE {
            Some(Reason::FlowControlError)
        } else if s.max_frame_size matches Some(v) && !(DEFAULT_MAX_FRAME_SIZE <= v
            <= MAX_MAX_FRAME_SIZE) {
            Some(Reason::FrameSizeError)
        } else {
            None
        }
    }

    /// The change a SETTINGS applies to every stream's send window.
    pub open spec fn spec_settings_delta(self, s: Settings) -> int {
        match s.initial_window_size {
            Some(v) => v - self.spec_remote_window(),
            None => 0,
        }
    }

    /// Every stream's send window survives the delta within the legal
    /// window space.
    pub open spec fn spec_settings_flow_ok(self, delta: int) -> bool {
        forall|i: int|
            0 <= i < self.streams@.len() ==> i32::MIN <= (
            #[trigger] self.streams@[i]).send_flow + delta <= MAX_WINDOW_SIZE
    }

    /// What handling an inbound SETTINGS leaves behind, exactly.
    pub open spec fn spec_recv_settings_post(pre: Connection, s: Settings, post: Connection, r: Result<Option<Settings>, ProtocolError>) -> bool {
        &&& (s.ack && !pre.settings_ack_pending ==> (r matches Err(
                ProtocolError::UnexpectedSettingsAck,
            ) && post == pre))
        &&& (s.ack && pre.settings_ack_pending ==> r == Ok::<Option<Settings>, ProtocolError>(
            None,
        ) && post == (Connection { settings_ack_pending: false, ..pre }))
        &&& (!s.ack ==> (Connection::spec_settings_error(s) matches Some(re) ==> (r == Err::<
                Option<Settings>,
                ProtocolError,
            >(ProtocolError::Reason(re)) && post == pre)))
        &&& (!s.ack && Connection::spec_settings_error(s) is None && !pre.spec_settings_flow_ok(pre.spec_settings_delta(s)) ==> (r == Err::<
                Option<Settings>,
                ProtocolError,
            >(ProtocolError::Reason(Reason::FlowControlError)) && post == pre))
        &&& (!s.ack && Connection::spec_settings_error(s) is None && pre.spec_settings_flow_ok(pre.spec_settings_delta(s)) ==> ({
                &&& r == Ok::<Option<Settings>, ProtocolError>(Some(Settings::ack_frame()))
                &&& post == (Connection {
                    remote_settings: pre.remote_settings.spec_merge(s),
                    streams: post.streams,
                    ..pre
                })
                &&& post.streams@.len() == pre.streams@.len()
                &&& forall|k: int|
                    0 <= k < pre.streams@.len() ==> post.streams@[k] == (Stream {
                        send_flow: ((#[trigger] pre.streams@[k]).send_flow + pre.spec_settings_delta(s)) as i32,
                        ..pre.streams@[k]
                    })
            }))
    }

    /// Handles an inbound SETTINGS frame.
    ///
    /// An acknowledgement clears the outstanding-ack mark; one that was
    /// never asked for is a connection error. A parameter-bearing SETTINGS
    /// is validated, folded into the peer's parameters, its window delta is
    /// applied to every stream's send window, and exactly one
    /// acknowledgement frame is handed back to send.
    pub fn recv_settings(&mut self, s: &Settings) -> (r: Result<Option<Settings>, ProtocolError>)
        requires
            old(self).wf(),
        ensures
            final(self).wf(),
            Connection::spec_recv_settings_post(*old(self), *s, *final(self), r),
    {
        if s.ack {
            if self.settings_ack_pending {
                self.settings_ack_pending = false;
                return Ok(None);
            } else {
                return Err(ProtocolError::UnexpectedSettingsAck);
            }
        }
        match s.enable_push {
            Some(v) => if v > 0 {
                return Err(ProtocolError::Reason(Reason::ProtocolError));
            },
            None => {},
        }
        match s.enable_connect_protocol {
            Some(v) => if v > 1 {
                return Err(ProtocolError::Reason(Reason::ProtocolError));
            },
            None => {},
        }
        match s.initial_window_size {
            Some(v) => if v > MAX_WINDOW_SIZE {
                return Err(ProtocolError::Reason(Reason::FlowControlError));
            },
            None => {},
        }
        match s.max_frame_size {
            Some(v) => if v < DEFAULT_MAX_FRAME_SIZE || v > MAX_MAX_FRAME_SIZE {
                return Err(ProtocolError::Reason(Reason::FrameSizeError));
            },
            None => {},
        }
        let old_window = match self.remote_settings.initial_window_size() {
            Some(v) => v,
            None => DEFAULT_INITIAL_WINDOW_SIZE,
        };
        let new_window = match s.initial_window_size {
            Some(v) => v,
            None => old_window,
        };
        let delta: i64 = new_window as i64 - old_window as i64;
        let ghost pre = *old(self);
        proof {
            assert(delta == pre.spec_settings_delta(*s));
        }
        let mut i: usize = 0;
        while i < self.streams.len()
            invariant
                pre == *old(self),
                !s.ack,
                Connection::spec_settings_error(*s) is None,
                pre.wf(),
                *self == pre,
                0 <= i <= pre.streams@.len(),
                delta == pre.spec_settings_delta(*s),
                forall|k: int|
                    0 <= k < i ==> i32::MIN <= (#[trigger] pre.streams@[k]).send_flow + delta
                        <= MAX_WINDOW_SIZE,
            decreases pre.streams@.len() - i,
        {
            let w: i64 = self.streams[i].send_flow as i64 + delta;
            if w < i32::MIN as i64 || w > MAX_WINDOW_SIZE as i64 {
                proof {
                    assert((#[trigger] pre.streams@[i as int]).send_flow + delta < i32::MIN
                        || pre.streams@[i as int].send_flow + delta > MAX_WINDOW_SIZE);
                    assert(!pre.spec_settings_flow_ok(delta as int));
                }
                return Err(ProtocolError::Reason(Reason::FlowControlError));
            }
            i = i + 1;
        }
        proof {
            assert(pre.spec_settings_flow_ok(delta as int));
        }
        let mut i: usize = 0;
        while i < self.streams.len()
            invariant
                pre == *old(self),
                !s.ack,
                Connection::spec_settings_error(*s) is None,
                pre.wf(),
                *self == (Connection { streams: self.streams, ..pre }),
                self.streams@.len() == pre.streams@.len(),
                0 <= i <= pre.streams@.len(),
                delta == pre.spec_settings_delta(*s),
                pre.spec_settings_flow_ok(delta as int),
                forall|k: int|
                    i <= k < pre.streams@.len() ==> self.streams@[k] == pre.streams@[k],
                forall|k: int|
                    0 <= k < i ==> self.streams@[k] == (Stream {
                        send_flow: ((#[trigger] pre.streams@[k]).send_flow + delta) as i32,
                        ..pre.streams@[k]
                    }),
            decreases pre.streams@.len() - i,
        {
            let s0 = self.streams[i];
            proof {
                assert(i32::MIN <= (#[trigger] pre.streams@[i as int]).send_flow + delta
                    <= MAX_WINDOW_SIZE);
            }
            let w: i64 = s0.send_flow as i64 + delta;
            let updated = Stream { send_flow: w as i32, ..s0 };
            vstd::std_specs::core::index_set(&mut self.streams, i, updated);
            i = i + 1;
        }
        self.remote_settings.merge(s);
        proof {
            let post = *self;
            assert(post.remote_settings == pre.remote_settings.spec_merge(*s));
            assert(post.remote_settings.wf());
            assert forall|k: int| 0 <= k < post.streams@.len() implies (
            #[trigger] post.streams@[k]).wf() && post.streams@[k].id == pre.streams@[k].id by {
                assert(pre.streams@[k].wf());
            }
            assert(post.wf());
        }
        Ok(Some(Settings::new_ack()))
    }

    /// The stream after a DATA frame of `len` octets was counted against
    /// it: its window shrinks, the payload counts against the announced
    /// content length, and END_STREAM closes the remote side.
    pub open spec fn spec_stream_after_data(s: Stream, len: int, eof: bool) -> Stream {
        Stream {
            recv_flow: (s.recv_flow - len) as i32,
            content_length_seen: if s.content_length_expected is Some {
                (s.content_length_seen + len) as u64
            } else {
                s.content_length_seen
            },
            state: if eof {
                s.state.after_remote_close()
            } else {
                s.state
            },
            eof_delivered: s.eof_delivered || eof,
            ..s
        }
    }

    /// Why a DATA frame for a registered stream fails, if it does.
    pub open spec fn spec_data_stream_error(s: Stream, len: int, eof: bool) -> Option<
        StreamError,
    > {
        if s.head_response && len > 0 {
            Some(StreamError::NonEmptyPayload)
        } else if s.content_length_expected matches Some(e) && s.content_length_seen + len > e {
            Some(StreamError::WrongPayloadLength)
        } else if eof && (s.content_length_expected matches Some(e) && s.content_length_seen
            + len != e) {
            Some(StreamError::WrongPayloadLength)
        } else {
            None
        }
    }

    /// What handling an inbound DATA frame leaves behind, exactly.
    pub open spec fn spec_recv_data_post(pre: Connection, frame: Data, now_ms: u64, post: Connection, r: Result<Option<Message>, RecvError>) -> bool {
        &&& (frame.stream_id.id == 0 ==> (r matches Err(RecvError::Connection(
                ProtocolError::InvalidStreamId,
            )) && post == pre))
        &&& (frame.stream_id.id != 0 && bytes_view(frame.payload).len() > pre.recv_flow
                ==> (r matches Err(RecvError::Connection(ProtocolError::Reason(
                Reason::FlowControlError,
            ))) && post == pre))
        &&& (frame.stream_id.id != 0 && bytes_view(frame.payload).len() <= pre.recv_flow
                && !pre.spec_has_stream(frame.stream_id.id) ==> ({
                let mid = Connection {
                    recv_flow: (pre.recv_flow - bytes_view(frame.payload).len()) as i32,
                    ..pre
                };
                if pre.spec_in_live_reset_cache(frame.stream_id.id, now_ms) {
                    r matches Ok(m) && m is None && post == mid
                } else if pre.spec_is_idle(frame.stream_id.id) {
                    (r matches Err(RecvError::Connection(ProtocolError::StreamIdle(_))))
                        && post == mid
                } else {
                    (r matches Err(RecvError::Connection(ProtocolError::StreamClosed(sid)))
                        && sid == frame.stream_id) && post == mid
                }
            }))
        &&& (frame.stream_id.id != 0 && bytes_view(frame.payload).len() <= pre.recv_flow
                && pre.spec_has_stream(frame.stream_id.id) ==> ({
                let len = bytes_view(frame.payload).len() as int;
                let id = frame.stream_id.id;
                let st = pre.spec_stream(id);
                let mid = Connection {
                    recv_flow: (pre.recv_flow - len) as i32,
                    ..pre
                };
                let st2 = Connection::spec_stream_after_data(st, len, frame.eof);
                if !st.state.can_recv() {
                    (r matches Err(RecvError::Connection(ProtocolError::StreamClosed(sid)))
                        && sid == frame.stream_id) && post == mid
                } else if len > st.recv_flow {
                    (r matches Err(RecvError::Connection(ProtocolError::Reason(
                        Reason::FlowControlError,
                    )))) && post == mid
                } else if Connection::spec_data_stream_error(st, len, frame.eof) is Some {
                    &&& r matches Err(RecvError::Stream(inner))
                    &&& Connection::spec_data_stream_error(st, len, frame.eof) matches Some(kind)
                    &&& inner == (StreamErrorInner { stream: frame.stream_id, kind })
                    &&& post == (Connection { streams: post.streams, ..mid })
                    &&& post.streams@ == pre.streams@.update(
                        pre.spec_stream_idx(id),
                        Stream { recv_flow: (st.recv_flow - len) as i32, ..st },
                    )
                } else {
                    &&& !st.eof_delivered
                    &&& st2.recv_flow >= 0
                    &&& (frame.eof ==> ({
                        &&& r matches Ok(m)
                        &&& m matches Some(msg)
                        &&& msg.stream == frame.stream_id
                        &&& msg.kind matches MessageKind::Eof(StreamEof::Data(d))
                        &&& d == frame.payload
                    }))
                    &&& (!frame.eof ==> ({
                        &&& r matches Ok(m)
                        &&& m matches Some(msg)
                        &&& msg.stream == frame.stream_id
                        &&& msg.kind matches MessageKind::Data(d)
                        &&& d == frame.payload
                    }))
                    &&& (if frame.eof && st.state is HalfClosedLocal {
                        &&& !post.spec_has_stream(id)
                        &&& post.streams@ == pre.streams@.remove(
                            pre.spec_stream_idx(id),
                        )
                        &&& (post.config.local_reset_max > 0 ==> post.spec_in_reset_cache(id))
                        &&& post == (Connection {
                            streams: post.streams,
                            reset_cache: post.reset_cache,
                            ..mid
                        })
                    } else {
                        &&& post == (Connection { streams: post.streams, ..mid })
                        &&& post.streams@ == pre.streams@.update(
                            pre.spec_stream_idx(id),
                            st2,
                        )
                    })
                }
            }))
    }

    /// Handles an inbound DATA frame.
    ///
    /// The payload is counted against the connection-level receive window
    /// first — also when the stream is already gone, as RFC 7540 demands —
    /// and then against the stream's. A window violated at either level is
    /// a connection error before processing completes, so the windows that
    /// remain are never negative where they were not already. Content
    /// length is enforced: overrunning the announced length, or ending the
    /// stream short of it, is a stream error. Late frames for a stream in
    /// the live reset cache are absorbed; frames for an unknown, idle
    /// stream end the connection with PROTOCOL_ERROR, frames for a
    /// forgotten stream with STREAM_CLOSED.
    pub fn recv_data(&mut self, frame: Data, now_ms: u64) -> (r: Result<Option<Message>, RecvError>)
        requires
            old(self).wf(),
        ensures
            final(self).wf(),
            Connection::spec_recv_data_post(*old(self), frame, now_ms, *final(self), r),
    {
        let id = frame.stream_id.id;
        if id == 0 {
            return Err(RecvError::Connection(ProtocolError::InvalidStreamId));
        }
        let len_usize = bytes_len(&frame.payload);
        if len_usize > MAX_WINDOW_SIZE as usize || self.recv_flow < 0 || (len_usize
            as u64) > (self.recv_flow as u64) {
            return Err(RecvError::Connection(ProtocolError::Reason(Reason::FlowControlError)));
        }
        let len: u32 = len_usize as u32;
        self.recv_flow = self.recv_flow - len as i32;
        match self.find_stream(id) {
            Some(i) => {
                let ghost pre = *old(self);
                let st = self.streams[i];
                proof {
                    self.lemma_stream_idx_unique(i as int, id);
                }
                if !(matches!(st.state, StreamState::Open) || matches!(
                    st.state,
                    StreamState::HalfClosedLocal,
                )) {
                    return Err(RecvError::Connection(ProtocolError::StreamClosed(
                        frame.stream_id,
                    )));
                }
                if st.recv_flow < 0 || (len as u64) > (st.recv_flow as u64) {
                    return Err(RecvError::Connection(ProtocolError::Reason(
                        Reason::FlowControlError,
                    )));
                }
                let flowed = Stream { recv_flow: st.recv_flow - len as i32, ..st };
                if st.head_response && len > 0 {
                    let ghost mid1 = *self;
                    vstd::std_specs::core::index_set(&mut self.streams, i, flowed);
                    proof {
                        self.lemma_wf_after_stream_update(mid1, i as int, flowed);
                    }
                    return Err(RecvError::Stream(StreamErrorInner::new(
                        frame.stream_id,
                        StreamError::NonEmptyPayload,
                    )));
                }
                let mut seen = st.content_length_seen;
                match st.content_length_expected {
                    Some(e) => {
                        if (len as u64) > e - seen {
                            let ghost mid1 = *self;
                            vstd::std_specs::core::index_set(&mut self.streams, i, flowed);
                            proof {
                                self.lemma_wf_after_stream_update(mid1, i as int, flowed);
                            }
                            return Err(RecvError::Stream(StreamErrorInner::new(
                                frame.stream_id,
                                StreamError::WrongPayloadLength,
                            )));
                        }
                        seen = seen + len as u64;
                        if frame.eof && seen != e {
                            let ghost mid1 = *self;
                            vstd::std_specs::core::index_set(&mut self.streams, i, flowed);
                            proof {
                                self.lemma_wf_after_stream_update(mid1, i as int, flowed);
                            }
                            return Err(RecvError::Stream(StreamErrorInner::new(
                                frame.stream_id,
                                StreamError::WrongPayloadLength,
                            )));
                        }
                    },
                    None => {},
                }
                let new_state = if frame.eof {
                    if matches!(st.state, StreamState::Open) {
                        StreamState::HalfClosedRemote
                    } else {
                        StreamState::Closed
                    }
                } else {
                    st.state
                };
                let st2 = Stream {
                    recv_flow: flowed.recv_flow,
                    content_length_seen: seen,
                    state: new_state,
                    eof_delivered: st.eof_delivered || frame.eof,
                    ..st
                };
                if frame.eof && matches!(st.state, StreamState::HalfClosedLocal) {
                    let ghost mid1 = *self;
                    self.streams.remove(i);
                    proof {
                        self.lemma_wf_after_stream_remove(mid1, i as int);
                    }
                    self.cache_insert(id, now_ms);
                } else {
                    let ghost mid1 = *self;
                    vstd::std_specs::core::index_set(&mut self.streams, i, st2);
                    proof {
                        self.lemma_wf_after_stream_update(mid1, i as int, st2);
                    }
                }
                Ok(Some(Message::data(frame.payload, frame.eof, frame.stream_id)))
            },
            None => {
                if self.reset_cache_lookup(id, now_ms) {
                    Ok(None)
                } else {
                    let idle = if id % 2 == self.config.local_next_stream_id % 2 {
                        id >= self.next_stream_id
                    } else {
                        id > self.last_peer_stream_id
                    };
                    if idle {
                        Err(RecvError::Connection(ProtocolError::StreamIdle("DATA")))
                    } else {
                        Err(RecvError::Connection(ProtocolError::StreamClosed(frame.stream_id)))
                    }
                }
            },
        }
    }

    /// How many of the first `n` registry entries are peer-initiated.
    pub open spec fn spec_peer_count_upto(streams: Seq<Stream>, local_parity: u32, n: int) -> int
        decreases n,
    {
        if n <= 0 {
            0
        } else {
            Connection::spec_peer_count_upto(streams, local_parity, n - 1) + (if streams[n
                - 1].id.id % 2 != local_parity {
                1int
            } else {
                0int
            })
        }
    }

    /// How many streams in the registry the peer initiated.
    pub open spec fn spec_peer_count(self) -> int {
        Connection::spec_peer_count_upto(
            self.streams@,
            self.config.local_next_stream_id % 2,
            self.streams@.len() as int,
        )
    }

    /// Counts the peer-initiated streams in the registry.
    pub fn peer_stream_count(&self) -> (r: usize)
        ensures
            r == self.spec_peer_count(),
    {
        let parity = self.config.local_next_stream_id % 2;
        let mut count: usize = 0;
        let mut i: usize = 0;
        while i < self.streams.len()
            invariant
                0 <= i <= self.streams@.len(),
                count <= i,
                count == Connection::spec_peer_count_upto(
                    self.streams@,
                    self.config.local_next_stream_id % 2,
                    i as int,
                ),
                parity == self.config.local_next_stream_id % 2,
            decreases self.streams@.len() - i,
        {
            if self.streams[i].id.id % 2 != parity {
                count = count + 1;
            }
            i = i + 1;
        }
        count
    }

    /// The stream a server registers when a request's HEADERS opens it.
    pub open spec fn spec_new_peer_stream(self, frame: Headers) -> Stream {
        Stream {
            id: frame.stream_id,
            state: if frame.eof {
                StreamState::HalfClosedRemote
            } else {
                StreamState::Open
            },
            recv_flow: self.spec_local_window() as i32,
            send_flow: self.spec_remote_window() as i32,
            pending_window_update: 0,
            content_length_expected: crate::header::spec_content_length(frame.headers),
            content_length_seen: 0,
            head_response: false,
            failed_reason: None,
            headers_received: true,
            eof_delivered: frame.eof,
        }
    }

    /// What handling an inbound HEADERS frame leaves behind, exactly.
    pub open spec fn spec_recv_headers_post(pre: Connection, frame: Headers, now_ms: u64, post: Connection, r: Result<Option<Message>, RecvError>) -> bool {
        &&& (post.last_peer_stream_id >= pre.last_peer_stream_id)
        &&& (frame.stream_id.id == 0 ==> (r matches Err(RecvError::Connection(
                ProtocolError::InvalidStreamId,
            )) && post == pre))
        &&& (frame.stream_id.id != 0 && pre.spec_is_local_id(frame.stream_id.id) && !pre.spec_has_stream(frame.stream_id.id) ==> post == pre && (if
                frame.stream_id.id >= pre.next_stream_id {
                r matches Err(RecvError::Connection(ProtocolError::StreamIdle(_)))
            } else if pre.spec_in_live_reset_cache(frame.stream_id.id, now_ms) {
                r matches Ok(m) && m is None
            } else {
                r matches Err(RecvError::Connection(ProtocolError::StreamClosed(sid)))
                    && sid == frame.stream_id
            }))
        &&& (frame.stream_id.id != 0 && !pre.spec_is_local_id(frame.stream_id.id) && !pre.spec_has_stream(frame.stream_id.id) && frame.stream_id.id <= pre.last_peer_stream_id ==> post == pre && (if pre.spec_in_live_reset_cache(frame.stream_id.id, now_ms) {
                r matches Ok(m) && m is None
            } else {
                r matches Err(RecvError::Connection(ProtocolError::InvalidStreamId))
            }))
        &&& (frame.stream_id.id != 0 && !pre.spec_is_local_id(frame.stream_id.id)
                && frame.stream_id.id > pre.last_peer_stream_id && pre.config.local_next_stream_id == 1 ==> (r matches Err(RecvError::Connection(
                ProtocolError::InvalidStreamId,
            )) && post == pre))
        &&& (frame.stream_id.id != 0 && !pre.spec_is_local_id(frame.stream_id.id)
                && frame.stream_id.id > pre.last_peer_stream_id && pre.config.local_next_stream_id == 2 ==> ({
                let id = frame.stream_id.id;
                let marked = Connection { last_peer_stream_id: id, ..pre };
                let pe = crate::frame::spec_request_pseudo_error(
                    frame.pseudo,
                    pre.config.extended_connect_protocol_enabled,
                );
                let cl = crate::header::spec_content_length(frame.headers);
                if pe is Some {
                    r == Err::<Option<Message>, RecvError>(RecvError::Connection(pe->0))
                        && post == marked
                } else if !crate::header::spec_content_length_ok(frame.headers) {
                    (r matches Err(RecvError::Stream(inner)) && inner == (StreamErrorInner {
                        stream: frame.stream_id,
                        kind: StreamError::InvalidContentLength,
                    })) && post == marked
                } else if frame.eof && (cl matches Some(e) && e != 0) {
                    (r matches Err(RecvError::Stream(inner)) && inner == (StreamErrorInner {
                        stream: frame.stream_id,
                        kind: StreamError::WrongPayloadLength,
                    })) && post == marked
                } else if pre.config.remote_max_initiated matches Some(max) && pre.spec_peer_count() >= max {
                    (r matches Err(RecvError::Stream(inner)) && inner == (StreamErrorInner {
                        stream: frame.stream_id,
                        kind: StreamError::Refused,
                    })) && post == marked
                } else {
                    &&& r == Ok::<Option<Message>, RecvError>(Some(Message {
                        stream: frame.stream_id,
                        kind: MessageKind::Headers {
                            pseudo: frame.pseudo,
                            headers: frame.headers,
                            eof: frame.eof,
                        },
                    }))
                    &&& post.streams@ == pre.streams@.push(
                        pre.spec_new_peer_stream(frame),
                    )
                    &&& post == (Connection {
                        streams: post.streams,
                        ..marked
                    })
                    &&& post.spec_has_stream(id)
                }
            }))
        &&& (frame.stream_id.id != 0 && pre.spec_has_stream(frame.stream_id.id) ==> ({
                let id = frame.stream_id.id;
                let st = pre.spec_stream(id);
                let cl = crate::header::spec_content_length(frame.headers);
                if !st.state.can_recv() {
                    (r matches Err(RecvError::Connection(ProtocolError::StreamClosed(sid)))
                        && sid == frame.stream_id) && post == pre
                } else if st.headers_received {
                    if !frame.eof {
                        (r matches Err(RecvError::Stream(inner)) && inner == (StreamErrorInner {
                            stream: frame.stream_id,
                            kind: StreamError::TrailersWithoutEos,
                        })) && post == pre
                    } else if !frame.pseudo.spec_is_empty() {
                        (r matches Err(RecvError::Connection(ProtocolError::UnexpectedPseudo(
                            _,
                        )))) && post == pre
                    } else if st.content_length_expected matches Some(e)
                        && st.content_length_seen != e {
                        (r matches Err(RecvError::Stream(inner)) && inner == (StreamErrorInner {
                            stream: frame.stream_id,
                            kind: StreamError::WrongPayloadLength,
                        })) && post == pre
                    } else {
                        &&& !st.eof_delivered
                        &&& r == Ok::<Option<Message>, RecvError>(Some(Message {
                            stream: frame.stream_id,
                            kind: MessageKind::Eof(StreamEof::Trailers(frame.headers)),
                        }))
                        &&& (if st.state is HalfClosedLocal {
                            !post.spec_has_stream(id) && (post.config.local_reset_max > 0 ==> post.spec_in_reset_cache(id))
                        } else {
                            post.streams@ == pre.streams@.update(
                                pre.spec_stream_idx(id),
                                Stream {
                                    state: StreamState::HalfClosedRemote,
                                    eof_delivered: true,
                                    ..st
                                },
                            )
                        })
                    }
                } else {
                    let pe = crate::frame::spec_response_pseudo_error(frame.pseudo);
                    if pe is Some {
                        r == Err::<Option<Message>, RecvError>(RecvError::Connection(pe->0))
                            && post == pre
                    } else if !crate::header::spec_content_length_ok(frame.headers) {
                        (r matches Err(RecvError::Stream(inner)) && inner == (StreamErrorInner {
                            stream: frame.stream_id,
                            kind: StreamError::InvalidContentLength,
                        })) && post == pre
                    } else if cl matches Some(e) && st.content_length_seen > e {
                        (r matches Err(RecvError::Stream(inner)) && inner == (StreamErrorInner {
                            stream: frame.stream_id,
                            kind: StreamError::WrongPayloadLength,
                        })) && post == pre
                    } else if frame.eof && (cl matches Some(e) && st.content_length_seen != e) {
                        (r matches Err(RecvError::Stream(inner)) && inner == (StreamErrorInner {
                            stream: frame.stream_id,
                            kind: StreamError::WrongPayloadLength,
                        })) && post == pre
                    } else {
                        &&& !st.eof_delivered
                        &&& r == Ok::<Option<Message>, RecvError>(Some(Message {
                            stream: frame.stream_id,
                            kind: MessageKind::Headers {
                                pseudo: frame.pseudo,
                                headers: frame.headers,
                                eof: frame.eof,
                            },
                        }))
                        &&& (if frame.eof && st.state is HalfClosedLocal {
                            !post.spec_has_stream(id) && (post.config.local_reset_max > 0 ==> post.spec_in_reset_cache(id))
                        } else {
                            post.streams@ == pre.streams@.update(
                                pre.spec_stream_idx(id),
                                Stream {
                                    content_length_expected: cl,
                                    headers_received: true,
                                    state: if frame.eof {
                                        st.state.after_remote_close()
                                    } else {
                                        st.state
                                    },
                                    eof_delivered: st.eof_delivered || frame.eof,
                                    ..st
                                },
                            )
                        })
                    }
                }
            }))
    }

    /// Handles an inbound HEADERS frame.
    ///
    /// On a stream this side opened, a first HEADERS is the response and a
    /// second one is trailers; trailers must carry END_STREAM and no
    /// pseudo-header fields. A peer-initiated id must strictly exceed every
    /// peer id seen before; anything lower that is not remembered in the
    /// reset cache is a connection error. A fresh peer id opens a stream —
    /// with validated pseudo-header fields and a well-formed
    /// content-length — and hands the application its headers event.
    pub fn recv_headers(&mut self, frame: Headers, now_ms: u64) -> (r: Result<
        Option<Message>,
        RecvError,
    >)
        requires
            old(self).wf(),
            frame.stream_id.wf(),
        ensures
            final(self).wf(),
            Connection::spec_recv_headers_post(*old(self), frame, now_ms, *final(self), r),
    {
        let id = frame.stream_id.id;
        if id == 0 {
            return Err(RecvError::Connection(ProtocolError::InvalidStreamId));
        }
        match self.find_stream(id) {
            Some(i) => {
                let st = self.streams[i];
                proof {
                    self.lemma_stream_idx_unique(i as int, id);
                }
                if !(matches!(st.state, StreamState::Open) || matches!(
                    st.state,
                    StreamState::HalfClosedLocal,
                )) {
                    return Err(RecvError::Connection(ProtocolError::StreamClosed(
                        frame.stream_id,
                    )));
                }
                if st.headers_received {
                    if !frame.eof {
                        return Err(RecvError::Stream(StreamErrorInner::new(
                            frame.stream_id,
                            StreamError::TrailersWithoutEos,
                        )));
                    }
                    if !frame.pseudo.is_empty() {
                        return Err(RecvError::Connection(ProtocolError::UnexpectedPseudo(
                            "trailers",
                        )));
                    }
                    match st.content_length_expected {
                        Some(e) => if st.content_length_seen != e {
                            return Err(RecvError::Stream(StreamErrorInner::new(
                                frame.stream_id,
                                StreamError::WrongPayloadLength,
                            )));
                        },
                        None => {},
                    }
                    if matches!(st.state, StreamState::HalfClosedLocal) {
                        let ghost mid1 = *self;
                        self.streams.remove(i);
                        proof {
                            self.lemma_wf_after_stream_remove(mid1, i as int);
                        }
                        self.cache_insert(id, now_ms);
                    } else {
                        let st2 = Stream {
                            state: StreamState::HalfClosedRemote,
                            eof_delivered: true,
                            ..st
                        };
                        let ghost mid1 = *self;
                        vstd::std_specs::core::index_set(&mut self.streams, i, st2);
                        proof {
                            self.lemma_wf_after_stream_update(mid1, i as int, st2);
                        }
                    }
                    return Ok(Some(Message {
                        stream: frame.stream_id,
                        kind: MessageKind::Eof(StreamEof::Trailers(frame.headers)),
                    }));
                }
                match frame.pseudo.validate_response() {
                    Ok(()) => {},
                    Err(e) => {
                        return Err(RecvError::Connection(e));
                    },
                }
                let cl = match crate::header::content_length_of(&frame.headers) {
                    Ok(v) => v,
                    Err(()) => {
                        return Err(RecvError::Stream(StreamErrorInner::new(
                            frame.stream_id,
                            StreamError::InvalidContentLength,
                        )));
                    },
                };
                match cl {
                    Some(e) => {
                        if st.content_length_seen > e {
                            return Err(RecvError::Stream(StreamErrorInner::new(
                                frame.stream_id,
                                StreamError::WrongPayloadLength,
                            )));
                        }
                        if frame.eof && st.content_length_seen != e {
                            return Err(RecvError::Stream(StreamErrorInner::new(
                                frame.stream_id,
                                StreamError::WrongPayloadLength,
                            )));
                        }
                    },
                    None => {},
                }
                if frame.eof && matches!(st.state, StreamState::HalfClosedLocal) {
                    let ghost mid1 = *self;
                    self.streams.remove(i);
                    proof {
                        self.lemma_wf_after_stream_remove(mid1, i as int);
                    }
                    self.cache_insert(id, now_ms);
                } else {
                    let new_state = if frame.eof {
                        if matches!(st.state, StreamState::Open) {
                            StreamState::HalfClosedRemote
                        } else {
                            StreamState::Closed
                        }
                    } else {
                        st.state
                    };
                    let st2 = Stream {
                        content_length_expected: cl,
                        headers_received: true,
                        state: new_state,
                        eof_delivered: st.eof_delivered || frame.eof,
                        ..st
                    };
                    let ghost mid1 = *self;
                    vstd::std_specs::core::index_set(&mut self.streams, i, st2);
                    proof {
                        self.lemma_wf_after_stream_update(mid1, i as int, st2);
                    }
                }
                Ok(Some(Message::new(frame.pseudo, frame.headers, frame.eof, frame.stream_id)))
            },
            None => {
                let is_local = id % 2 == self.config.local_next_stream_id % 2;
                if is_local {
                    if id >= self.next_stream_id {
                        return Err(RecvError::Connection(ProtocolError::StreamIdle("HEADERS")));
                    }
                    if self.reset_cache_lookup(id, now_ms) {
                        return Ok(None);
                    }
                    return Err(RecvError::Connection(ProtocolError::StreamClosed(
                        frame.stream_id,
                    )));
                }
                if id <= self.last_peer_stream_id {
                    if self.reset_cache_lookup(id, now_ms) {
                        return Ok(None);
                    }
                    return Err(RecvError::Connection(ProtocolError::InvalidStreamId));
                }
                if self.config.local_next_stream_id == 1 {
                    return Err(RecvError::Connection(ProtocolError::InvalidStreamId));
                }
                let ghost pre = *old(self);
                self.last_peer_stream_id = id;
                match frame.pseudo.validate_request(
                    self.config.extended_connect_protocol_enabled,
                ) {
                    Ok(()) => {},
                    Err(e) => {
                        return Err(RecvError::Connection(e));
                    },
                }
                let cl = match crate::header::content_length_of(&frame.headers) {
                    Ok(v) => v,
                    Err(()) => {
                        return Err(RecvError::Stream(StreamErrorInner::new(
                            frame.stream_id,
                            StreamError::InvalidContentLength,
                        )));
                    },
                };
                if frame.eof {
                    match cl {
                        Some(e) => if e != 0 {
                            return Err(RecvError::Stream(StreamErrorInner::new(
                                frame.stream_id,
                                StreamError::WrongPayloadLength,
                            )));
                        },
                        None => {},
                    }
                }
                match self.config.remote_max_initiated {
                    Some(max) => {
                        let count = self.peer_stream_count();
                        proof {
                            assert(self.spec_peer_count() == pre.spec_peer_count());
                        }
                        if count as u64 >= max as u64 {
                            return Err(RecvError::Stream(StreamErrorInner::new(
                                frame.stream_id,
                                StreamError::Refused,
                            )));
                        }
                    },
                    None => {},
                }
                let recv_window = match self.local_settings.initial_window_size() {
                    Some(v) => v,
                    None => DEFAULT_INITIAL_WINDOW_SIZE,
                };
                let send_window = match self.remote_settings.initial_window_size() {
                    Some(v) => v,
                    None => DEFAULT_INITIAL_WINDOW_SIZE,
                };
                let fresh = Stream {
                    id: frame.stream_id,
                    state: if frame.eof {
                        StreamState::HalfClosedRemote
                    } else {
                        StreamState::Open
                    },
                    recv_flow: recv_window as i32,
                    send_flow: send_window as i32,
                    pending_window_update: 0,
                    content_length_expected: cl,
                    content_length_seen: 0,
                    head_response: false,
                    failed_reason: None,
                    headers_received: true,
                    eof_delivered: frame.eof,
                };
                let ghost mid1 = *self;
                self.streams.push(fresh);
                proof {
                    assert(fresh == pre.spec_new_peer_stream(frame));
                    assert forall|k: int| 0 <= k < self.streams@.len() implies (
                    #[trigger] self.streams@[k]).wf() by {
                        if k < mid1.streams@.len() {
                            assert(self.streams@[k] == mid1.streams@[k]);
                        }
                    }
                    assert forall|a: int, b: int|
                        0 <= a < b < self.streams@.len() implies self.streams@[a].id.id
                        != self.streams@[b].id.id by {
                        if b == self.streams@.len() - 1 {
                            assert(self.streams@[a] == mid1.streams@[a]);
                            if self.streams@[a].id.id == id {
                                assert(mid1.spec_has_stream(id));
                            }
                        } else {
                            assert(self.streams@[a] == mid1.streams@[a]);
                            assert(self.streams@[b] == mid1.streams@[b]);
                        }
                    }
                    assert forall|k: int|
                        0 <= k < self.streams@.len() && self.spec_is_local_id(
                            (#[trigger] self.streams@[k]).id.id,
                        ) implies self.streams@[k].id.id < self.next_stream_id by {
                        if k < mid1.streams@.len() {
                            assert(self.streams@[k] == mid1.streams@[k]);
                        }
                    }
                    assert forall|k: int|
                        0 <= k < self.streams@.len() && !self.spec_is_local_id(
                            (#[trigger] self.streams@[k]).id.id,
                        ) implies self.streams@[k].id.id <= self.last_peer_stream_id by {
                        if k < mid1.streams@.len() {
                            assert(self.streams@[k] == mid1.streams@[k]);
                            assert(mid1.streams@[k].id.id <= pre.last_peer_stream_id);
                        }
                    }
                    assert(self.wf());
                    assert(self.streams@[self.streams@.len() - 1].id.id == id);
                    assert(self.spec_has_stream(id));
                }
                Ok(Some(Message::new(frame.pseudo, frame.headers, frame.eof, frame.stream_id)))
            },
        }
    }

    /// The stream registered when this side opens a request stream.
    pub open spec fn spec_new_local_stream(self, pseudo: PseudoHeaders, eof: bool) -> Stream {
        Stream {
            id: StreamId { id: self.next_stream_id },
            state: if eof {
                StreamState::HalfClosedLocal
            } else {
                StreamState::Open
            },
            recv_flow: self.spec_local_window() as i32,
            send_flow: self.spec_remote_window() as i32,
            pending_window_update: 0,
            content_length_expected: None,
            content_length_seen: 0,
            head_response: pseudo.method == Some(Method::Head),
            failed_reason: None,
            headers_received: false,
            eof_delivered: false,
        }
    }

    /// Opens a new locally-initiated stream carrying a request.
    ///
    /// After the peer's GOAWAY no new stream may be opened; exhausting the
    /// 31-bit id space is non-resumable. Otherwise the next local id is
    /// allocated, the stream registered, and the HEADERS frame to send
    /// handed back.
    pub fn send_request(&mut self, pseudo: PseudoHeaders, headers: HeaderMap, eof: bool) -> (r:
        Result<(StreamId, Headers), OperationError>)
        requires
            old(self).wf(),
        ensures
            final(self).wf(),
            old(self).failed ==> (r matches Err(OperationError::Disconnected) && *final(self)
                == *old(self)),
            !old(self).failed ==> (old(self).goaway_received matches Some(info) ==> (r matches
                Err(OperationError::Closed(re)) && re == Some(info.reason) && *final(self)
                == *old(self))),
            !old(self).failed && old(self).goaway_received is None && old(self).next_stream_id
                > MAX_STREAM_ID ==> (r matches Err(OperationError::OverflowedStreamId) && *final(self) == *old(self)),
            !old(self).failed && old(self).goaway_received is None && old(self).next_stream_id
                <= MAX_STREAM_ID ==> ({
                let id = old(self).next_stream_id;
                &&& (r matches Ok(p) && p == (StreamId { id }, Headers {
                    stream_id: StreamId { id },
                    pseudo,
                    headers,
                    eof,
                }))
                &&& final(self).streams@ == old(self).streams@.push(
                    old(self).spec_new_local_stream(pseudo, eof),
                )
                &&& *final(self) == (Connection {
                    next_stream_id: (id + 2) as u32,
                    streams: final(self).streams,
                    ..*old(self)
                })
                &&& final(self).spec_has_stream(id)
            }),
    {
        if self.failed {
            return Err(OperationError::Disconnected);
        }
        match self.goaway_received {
            Some(info) => {
                return Err(OperationError::Closed(Some(info.reason)));
            },
            None => {},
        }
        if self.next_stream_id > MAX_STREAM_ID {
            return Err(OperationError::OverflowedStreamId);
        }
        let id = self.next_stream_id;
        let recv_window = match self.local_settings.initial_window_size() {
            Some(v) => v,
            None => DEFAULT_INITIAL_WINDOW_SIZE,
        };
        let send_window = match self.remote_settings.initial_window_size() {
            Some(v) => v,
            None => DEFAULT_INITIAL_WINDOW_SIZE,
        };
        let head = match &pseudo.method {
            Some(m) => matches!(m, Method::Head),
            None => false,
        };
        proof {
            assert(head == (pseudo.method == Some(Method::Head)));
        }
        let fresh = Stream {
            id: StreamId { id },
            state: if eof {
                StreamState::HalfClosedLocal
            } else {
                StreamState::Open
            },
            recv_flow: recv_window as i32,
            send_flow: send_window as i32,
            pending_window_update: 0,
            content_length_expected: None,
            content_length_seen: 0,
            head_response: head,
            failed_reason: None,
            headers_received: false,
            eof_delivered: false,
        };
        let ghost pre = *old(self);
        self.next_stream_id = id + 2;
        let ghost mid1 = *self;
        self.streams.push(fresh);
        proof {
            assert(fresh == pre.spec_new_local_stream(pseudo, eof));
            assert forall|k: int| 0 <= k < self.streams@.len() implies (
            #[trigger] self.streams@[k]).wf() by {
                if k < mid1.streams@.len() {
                    assert(self.streams@[k] == mid1.streams@[k]);
                }
            }
            assert forall|a: int, b: int|
                0 <= a < b < self.streams@.len() implies self.streams@[a].id.id
                != self.streams@[b].id.id by {
                if b == self.streams@.len() - 1 {
                    assert(self.streams@[a] == pre.streams@[a]);
                    if pre.spec_is_local_id(pre.streams@[a].id.id) {
                        assert(pre.streams@[a].id.id < pre.next_stream_id);
                    } else {
                        assert(pre.streams@[a].id.id % 2 != id % 2);
                    }
                } else {
                    assert(self.streams@[a] == pre.streams@[a]);
                    assert(self.streams@[b] == pre.streams@[b]);
                }
            }
            assert forall|k: int|
                0 <= k < self.streams@.len() && self.spec_is_local_id(
                    (#[trigger] self.streams@[k]).id.id,
                ) implies self.streams@[k].id.id < self.next_stream_id by {
                if k < mid1.streams@.len() {
                    assert(self.streams@[k] == pre.streams@[k]);
                    assert(pre.streams@[k].id.id < pre.next_stream_id);
                }
            }
            assert forall|k: int|
                0 <= k < self.streams@.len() && !self.spec_is_local_id(
                    (#[trigger] self.streams@[k]).id.id,
                ) implies self.streams@[k].id.id <= self.last_peer_stream_id by {
                if k < mid1.streams@.len() {
                    assert(self.streams@[k] == pre.streams@[k]);
                }
            }
            assert(self.wf());
            assert(self.streams@[self.streams@.len() - 1].id.id == id);
            assert(self.spec_has_stream(id));
        }
        Ok((StreamId { id }, Headers { stream_id: StreamId { id }, pseudo, headers, eof }))
    }

    /// Sends HEADERS on an existing stream: a response, or trailers when
    /// `eof` is set. Streams that cannot send (closed, reset, or still
    /// unknown) are rejected with the application-visible closed error.
    pub fn send_headers(&mut self, id: u32, pseudo: PseudoHeaders, headers: HeaderMap, eof: bool, now_ms: u64) -> (r: Result<Headers, OperationError>)
        requires
            old(self).wf(),
        ensures
            final(self).wf(),
            !old(self).spec_has_stream(id) && old(self).spec_is_idle(id) ==> (r matches Err(
                OperationError::Idle,
            ) && *final(self) == *old(self)),
            !old(self).spec_has_stream(id) && !old(self).spec_is_idle(id) ==> (r matches Err(
                OperationError::Closed(re),
            ) && re is None && *final(self) == *old(self)),
            old(self).spec_has_stream(id) && !old(self).spec_stream(id).state.can_send() ==> (
            r matches Err(OperationError::Closed(re)) && re == old(self).spec_stream(
                id,
            ).failed_reason && *final(self) == *old(self)),
            old(self).spec_has_stream(id) && old(self).spec_stream(id).state.can_send() ==> ({
                let st = old(self).spec_stream(id);
                &&& (r matches Ok(f) && f == (Headers {
                    stream_id: st.id,
                    pseudo,
                    headers,
                    eof,
                }))
                &&& (if eof && st.state is HalfClosedRemote {
                    !final(self).spec_has_stream(id) && (final(self).config.local_reset_max > 0
                        ==> final(self).spec_in_reset_cache(id))
                } else {
                    final(self).streams@ == old(self).streams@.update(
                        old(self).spec_stream_idx(id),
                        Stream {
                            state: if eof {
                                st.state.after_local_close()
                            } else {
                                st.state
                            },
                            ..st
                        },
                    )
                })
            }),
    {
        match self.find_stream(id) {
            None => {
                let idle = if id % 2 == self.config.local_next_stream_id % 2 {
                    id >= self.next_stream_id
                } else {
                    id > self.last_peer_stream_id
                };
                if idle {
                    Err(OperationError::Idle)
                } else {
                    Err(OperationError::Closed(None))
                }
            },
            Some(i) => {
                let st = self.streams[i];
                proof {
                    self.lemma_stream_idx_unique(i as int, id);
                }
                if !(matches!(st.state, StreamState::Open) || matches!(
                    st.state,
                    StreamState::HalfClosedRemote,
                )) {
                    return Err(OperationError::Closed(st.failed_reason));
                }
                if eof && matches!(st.state, StreamState::HalfClosedRemote) {
                    let ghost mid1 = *self;
                    self.streams.remove(i);
                    proof {
                        self.lemma_wf_after_stream_remove(mid1, i as int);
                    }
                    self.cache_insert(id, now_ms);
                } else {
                    let st2 = Stream {
                        state: if eof {
                            StreamState::HalfClosedLocal
                        } else {
                            st.state
                        },
                        ..st
                    };
                    let ghost mid1 = *self;
                    vstd::std_specs::core::index_set(&mut self.streams, i, st2);
                    proof {
                        self.lemma_wf_after_stream_update(mid1, i as int, st2);
                    }
                }
                Ok(Headers { stream_id: st.id, pseudo, headers, eof })
            },
        }
    }

    /// What resetting a stream leaves behind, exactly.
    pub open spec fn spec_rst_stream_post(pre: Connection, id: u32, reason: Reason, post: Connection, r: Option<Reset>) -> bool {
        &&& (!pre.spec_has_stream(id) ==> r is None && post == pre)
        &&& (pre.spec_has_stream(id) ==> ({
                &&& r == Some(Reset {
                    stream_id: pre.spec_stream(id).id,
                    reason,
                })
                &&& !post.spec_has_stream(id)
                &&& post.streams@ == pre.streams@.remove(
                    pre.spec_stream_idx(id),
                )
                &&& (post.config.local_reset_max > 0 ==> post.spec_in_reset_cache(
                    id,
                ))
                &&& post == (Connection {
                    streams: post.streams,
                    reset_cache: post.reset_cache,
                    ..pre
                })
            }))
    }

    /// Resets a stream: it leaves the registry, its id is remembered in the
    /// reset cache, and the RST_STREAM frame to send is handed back. A
    /// stream that is already gone yields nothing.
    pub fn rst_stream(&mut self, id: u32, reason: Reason, now_ms: u64) -> (r: Option<Reset>)
        requires
            old(self).wf(),
        ensures
            final(self).wf(),
            Connection::spec_rst_stream_post(*old(self), id, reason, *final(self), r),
    {
        match self.find_stream(id) {
            None => None,
            Some(i) => {
                let st = self.streams[i];
                proof {
                    self.lemma_stream_idx_unique(i as int, id);
                }
                let ghost mid1 = *self;
                self.streams.remove(i);
                proof {
                    self.lemma_wf_after_stream_remove(mid1, i as int);
                }
                self.cache_insert(id, now_ms);
                Some(Reset { stream_id: st.id, reason })
            },
        }
    }

    /// Announces new local parameters: they are folded into the local
    /// settings, exactly one SETTINGS frame is handed back to send, and
    /// its acknowledgement becomes outstanding. Announcing unchanged
    /// parameters changes nothing but that mark.
    pub fn send_settings(&mut self, s: &Settings) -> (r: Settings)
        requires
            old(self).wf(),
            !s.ack,
            s.wf(),
        ensures
            final(self).wf(),
            r == *s,
            *final(self) == (Connection {
                local_settings: old(self).local_settings.spec_merge(*s),
                settings_ack_pending: true,
                ..*old(self)
            }),
    {
        self.local_settings.merge(s);
        self.settings_ack_pending = true;
        *s
    }

    /// The octets a sequence of DATA frames carries, in order.
    pub open spec fn spec_frames_payload(frames: Seq<Data>) -> Seq<u8>
        decreases frames.len(),
    {
        if frames.len() == 0 {
            Seq::<u8>::empty()
        } else {
            Connection::spec_frames_payload(frames.drop_last()) + bytes_view(
                frames.last().payload,
            )
        }
    }

    /// How many octets may go out now: the smaller of the stream-level and
    /// connection-level send windows, empty windows counting as zero.
    pub open spec fn spec_send_budget(stream_flow: i32, conn_flow: i32) -> int {
        let s: int = if stream_flow > 0 {
            stream_flow as int
        } else {
            0
        };
        let c: int = if conn_flow > 0 {
            conn_flow as int
        } else {
            0
        };
        if s < c {
            s
        } else {
            c
        }
    }

    /// The largest frame payload the peer accepts.
    pub open spec fn spec_remote_max_frame(self) -> u32 {
        self.remote_settings.spec_max_frame_size()
    }

    /// Sends payload on a stream, chunked to the peer's maximum frame size
    /// and bounded by the smaller of the stream-level and connection-level
    /// send windows. Both windows shrink by exactly the octets emitted,
    /// atomically with the emission. What the windows cannot cover comes
    /// back as `blocked`: the producer is parked until a WINDOW_UPDATE, a
    /// reset, or cancellation. END_STREAM goes out only on the final chunk
    /// when everything fit.
    pub fn send_data(&mut self, id: u32, data: Bytes, eof: bool, now_ms: u64) -> (r: Result<
        SendData,
        OperationError,
    >)
        requires
            old(self).wf(),
        ensures
            final(self).wf(),
            !old(self).spec_has_stream(id) && old(self).spec_is_idle(id) ==> (r matches Err(
                OperationError::Idle,
            ) && *final(self) == *old(self)),
            !old(self).spec_has_stream(id) && !old(self).spec_is_idle(id) ==> (r matches Err(
                OperationError::Closed(re),
            ) && re is None && *final(self) == *old(self)),
            old(self).spec_has_stream(id) && !old(self).spec_stream(id).state.can_send() ==> (
            r matches Err(OperationError::Closed(re)) && re == old(self).spec_stream(
                id,
            ).failed_reason && *final(self) == *old(self)),
            old(self).spec_has_stream(id) && old(self).spec_stream(id).state.can_send() ==> ({
                let st = old(self).spec_stream(id);
                let len = bytes_view(data).len() as int;
                let budget = Connection::spec_send_budget(st.send_flow, old(self).send_flow);
                let sent = if len <= budget {
                    len
                } else {
                    budget
                };
                &&& r matches Ok(out)
                &&& Connection::spec_frames_payload(out.frames@) == bytes_view(data).take(sent)
                &&& (forall|k: int|
                    0 <= k < out.frames@.len() ==> (#[trigger] out.frames@[k]).stream_id
                        == st.id && bytes_view(out.frames@[k].payload).len() <= old(
                        self,
                    ).spec_remote_max_frame())
                &&& (forall|k: int|
                    0 <= k < out.frames@.len() && (#[trigger] out.frames@[k]).eof ==> (eof && k
                        == out.frames@.len() - 1 && sent == len))
                &&& (sent < len ==> (out.blocked matches Some(b) && bytes_view(b) == bytes_view(
                    data,
                ).skip(sent)))
                &&& (sent == len ==> out.blocked is None)
                &&& (sent == len && eof && out.frames@.len() > 0 ==> out.frames@.last().eof)
                &&& (sent == len && eof ==> out.frames@.len() > 0)
                &&& final(self).send_flow == old(self).send_flow - sent
                &&& (if eof && sent == len && st.state is HalfClosedRemote {
                    !final(self).spec_has_stream(id) && (final(self).config.local_reset_max > 0
                        ==> final(self).spec_in_reset_cache(id))
                } else {
                    final(self).streams@ == old(self).streams@.update(
                        old(self).spec_stream_idx(id),
                        Stream {
                            send_flow: (st.send_flow - sent) as i32,
                            state: if eof && sent == len {
                                st.state.after_local_close()
                            } else {
                                st.state
                            },
                            ..st
                        },
                    )
                })
            }),
    {
        let i = match self.find_stream(id) {
            None => {
                let idle = if id % 2 == self.config.local_next_stream_id % 2 {
                    id >= self.next_stream_id
                } else {
                    id > self.last_peer_stream_id
                };
                if idle {
                    return Err(OperationError::Idle);
                }
                return Err(OperationError::Closed(None));
            },
            Some(i) => i,
        };
        let st = self.streams[i];
        proof {
            self.lemma_stream_idx_unique(i as int, id);
        }
        if !(matches!(st.state, StreamState::Open) || matches!(
            st.state,
            StreamState::HalfClosedRemote,
        )) {
            return Err(OperationError::Closed(st.failed_reason));
        }
        let mfs = match self.remote_settings.max_frame_size() {
            Some(v) => v,
            None => DEFAULT_MAX_FRAME_SIZE,
        };
        let ghost orig = bytes_view(data);
        let mut remaining = data;
        let mut frames: Vec<Data> = Vec::new();
        let mut s_flow = st.send_flow;
        let mut c_flow = self.send_flow;
        while bytes_len(&remaining) > 0 && s_flow > 0 && c_flow > 0
            invariant
                st == old(self).spec_stream(id),
                mfs == old(self).spec_remote_max_frame(),
                mfs >= 1,
                bytes_view(remaining) == orig.skip(orig.len() - bytes_view(remaining).len()),
                bytes_view(remaining).len() <= orig.len(),
                s_flow == st.send_flow - (orig.len() - bytes_view(remaining).len()),
                c_flow == old(self).send_flow - (orig.len() - bytes_view(remaining).len()),
                orig.len() > bytes_view(remaining).len() ==> s_flow >= 0 && c_flow >= 0,
                Connection::spec_frames_payload(frames@) == orig.take(
                    orig.len() - bytes_view(remaining).len(),
                ),
                forall|k: int|
                    0 <= k < frames@.len() ==> (#[trigger] frames@[k]).stream_id == st.id
                        && bytes_view(frames@[k].payload).len() <= mfs,
                forall|k: int|
                    0 <= k < frames@.len() && (#[trigger] frames@[k]).eof ==> (eof && k
                        == frames@.len() - 1 && bytes_view(remaining).len() == 0),
                (eof && bytes_view(remaining).len() == 0 && frames@.len() > 0)
                    ==> frames@.last().eof,
            decreases bytes_view(remaining).len(),
        {
            let rem_len = bytes_len(&remaining);
            let mut chunk: usize = rem_len;
            if chunk > s_flow as usize {
                chunk = s_flow as usize;
            }
            if chunk > c_flow as usize {
                chunk = c_flow as usize;
            }
            if chunk > mfs as usize {
                chunk = mfs as usize;
            }
            let ghost sent_before = orig.len() - bytes_view(remaining).len();
            let part = crate::buffer::bytes_split_to(&mut remaining, chunk);
            s_flow = s_flow - chunk as i32;
            c_flow = c_flow - chunk as i32;
            let done = bytes_len(&remaining) == 0;
            let ghost prevf = frames@;
            frames.push(Data { stream_id: st.id, payload: part, eof: eof && done });
            proof {
                assert(frames@.drop_last() =~= prevf);
                assert(bytes_view(remaining) =~= orig.skip(sent_before + chunk));
                assert(Connection::spec_frames_payload(frames@) == orig.take(sent_before)
                    + orig.skip(sent_before).take(chunk as int));
                assert(orig.take(sent_before) + orig.skip(sent_before).take(chunk as int)
                    =~= orig.take(sent_before + chunk));
                assert forall|k: int|
                    0 <= k < frames@.len() && (#[trigger] frames@[k]).eof implies (eof && k
                        == frames@.len() - 1 && bytes_view(remaining).len() == 0) by {
                    if k < prevf.len() {
                        assert(frames@[k] == prevf[k]);
                    }
                }
            }
        }
        if bytes_len(&remaining) == 0 && frames.len() == 0 && eof {
            let empty = crate::buffer::bytes_new();
            frames.push(Data { stream_id: st.id, payload: empty, eof: true });
            proof {
                assert(frames@.len() == 1);
                assert(frames@.drop_last() =~= Seq::<Data>::empty());
                assert(Connection::spec_frames_payload(Seq::<Data>::empty())
                    == Seq::<u8>::empty());
                assert(bytes_view(frames@.last().payload) == Seq::<u8>::empty());
                assert(Connection::spec_frames_payload(frames@) == Seq::<u8>::empty()
                    + Seq::<u8>::empty());
                assert(Seq::<u8>::empty() + Seq::<u8>::empty() =~= orig.take(0));
            }
        }
        let blocked_some = bytes_len(&remaining) > 0;
        let ghost sent = orig.len() - bytes_view(remaining).len();
        proof {
            let len = orig.len() as int;
            let budget = Connection::spec_send_budget(st.send_flow, old(self).send_flow);
            if blocked_some {
                if sent == 0 {
                    assert(budget == 0 || len == 0);
                } else {
                    assert(s_flow >= 0 && c_flow >= 0);
                    assert(s_flow <= 0 || c_flow <= 0);
                }
            } else {
                if sent > 0 {
                    assert(s_flow >= 0 && c_flow >= 0);
                }
            }
            assert(sent == if len <= budget { len as int } else { budget });
        }
        self.send_flow = c_flow;
        let fully = !blocked_some;
        if eof && fully && matches!(st.state, StreamState::HalfClosedRemote) {
            let ghost mid1 = *self;
            self.streams.remove(i);
            proof {
                self.lemma_wf_after_stream_remove(mid1, i as int);
            }
            self.cache_insert(id, now_ms);
        } else {
            let new_state = if eof && fully {
                if matches!(st.state, StreamState::Open) {
                    StreamState::HalfClosedLocal
                } else {
                    StreamState::Closed
                }
            } else {
                st.state
            };
            let st2 = Stream { send_flow: s_flow, state: new_state, ..st };
            let ghost mid1 = *self;
            vstd::std_specs::core::index_set(&mut self.streams, i, st2);
            proof {
                self.lemma_wf_after_stream_update(mid1, i as int, st2);
            }
        }
        let blocked = if blocked_some {
            Some(remaining)
        } else {
            None
        };
        Ok(SendData { frames, blocked })
    }

    /// Stream-level receive window target: what we announced.
    pub open spec fn spec_stream_recv_target(self) -> u32 {
        self.spec_local_window()
    }

    /// What one window level looks like after capacity is released: the
    /// pending octets grow, and once the level has fallen below half its
    /// target and something is pending, a single update returns everything.
    pub open spec fn spec_release(flow: i32, pending: u32, consumed: u32, target: u32) -> (
        i32,
        u32,
        Option<u32>,
    ) {
        let p = (pending + consumed) as u32;
        if flow < target / 2 && p > 0 {
            ((flow + p) as i32, 0u32, Some(p))
        } else {
            (flow, p, None::<u32>)
        }
    }

    /// Returns capacity the application consumed: the engine accumulates
    /// it and replenishes the peer's view with a single WINDOW_UPDATE per
    /// level once a level falls below half of its configured window. No
    /// zero-valued update is ever emitted. Releasing more than the window
    /// space can hold back is the application's error and changes nothing.
    /// Capacity of a stream that is already gone still counts at
    /// connection level.
    pub fn release_capacity(&mut self, id: u32, consumed: u32) -> (r: Result<
        Vec<WindowUpdate>,
        OperationError,
    >)
        requires
            old(self).wf(),
        ensures
            final(self).wf(),
            r matches Ok(ups) ==> forall|k: int|
                0 <= k < ups@.len() ==> (#[trigger] ups@[k]).size_increment > 0,
            old(self).spec_has_stream(id) && old(self).spec_stream(id).recv_flow + old(
                self,
            ).spec_stream(id).pending_window_update + consumed > MAX_WINDOW_SIZE ==> (r matches
                Err(OperationError::Stream(StreamError::WindowOverflowed)) && *final(self)
                == *old(self)),
            (!old(self).spec_has_stream(id) || old(self).spec_stream(id).recv_flow + old(
                self,
            ).spec_stream(id).pending_window_update + consumed <= MAX_WINDOW_SIZE) && old(
                self,
            ).recv_flow + old(self).pending_window_update + consumed > MAX_WINDOW_SIZE ==> (
            r matches Err(OperationError::Stream(StreamError::WindowOverflowed)) && *final(self)
                == *old(self)),
            old(self).spec_has_stream(id) && old(self).spec_stream(id).recv_flow + old(
                self,
            ).spec_stream(id).pending_window_update + consumed <= MAX_WINDOW_SIZE && old(
                self,
            ).recv_flow + old(self).pending_window_update + consumed <= MAX_WINDOW_SIZE ==> ({
                let st = old(self).spec_stream(id);
                let srel = Connection::spec_release(
                    st.recv_flow,
                    st.pending_window_update,
                    consumed,
                    old(self).spec_stream_recv_target(),
                );
                let crel = Connection::spec_release(
                    old(self).recv_flow,
                    old(self).pending_window_update,
                    consumed,
                    old(self).config.local_init_connection_window_sz,
                );
                &&& final(self).streams@ == old(self).streams@.update(
                    old(self).spec_stream_idx(id),
                    Stream { recv_flow: srel.0, pending_window_update: srel.1, ..st },
                )
                &&& final(self).recv_flow == crel.0
                &&& final(self).pending_window_update == crel.1
                &&& (r matches Ok(ups) && ups@.len() == (if srel.2 is Some {
                    1int
                } else {
                    0int
                }) + (if crel.2 is Some {
                    1int
                } else {
                    0int
                }))
                &&& (srel.2 matches Some(inc) ==> (r matches Ok(ups) && ups@[0]
                    == (WindowUpdate { stream_id: st.id, size_increment: inc })))
                &&& (crel.2 matches Some(inc) ==> (r matches Ok(ups)
                    && ups@[ups@.len() - 1] == (WindowUpdate {
                    stream_id: StreamId { id: 0 },
                    size_increment: inc,
                })))
            }),
            !old(self).spec_has_stream(id) && old(self).recv_flow + old(
                self,
            ).pending_window_update + consumed <= MAX_WINDOW_SIZE ==> ({
                let crel = Connection::spec_release(
                    old(self).recv_flow,
                    old(self).pending_window_update,
                    consumed,
                    old(self).config.local_init_connection_window_sz,
                );
                &&& final(self).streams@ == old(self).streams@
                &&& final(self).recv_flow == crel.0
                &&& final(self).pending_window_update == crel.1
                &&& (r matches Ok(ups) && ups@.len() == (if crel.2 is Some {
                    1int
                } else {
                    0int
                }))
                &&& (crel.2 matches Some(inc) ==> (r matches Ok(ups) && ups@[0]
                    == (WindowUpdate { stream_id: StreamId { id: 0 }, size_increment: inc })))
            }),
    {
        let i_opt = self.find_stream(id);
        match i_opt {
            Some(i) => {
                let st = self.streams[i];
                let sum: i64 = st.recv_flow as i64 + st.pending_window_update as i64
                    + consumed as i64;
                if sum > MAX_WINDOW_SIZE as i64 {
                    return Err(OperationError::Stream(StreamError::WindowOverflowed));
                }
            },
            None => {},
        }
        let csum: i64 = self.recv_flow as i64 + self.pending_window_update as i64
            + consumed as i64;
        if csum > MAX_WINDOW_SIZE as i64 {
            return Err(OperationError::Stream(StreamError::WindowOverflowed));
        }
        let mut ups: Vec<WindowUpdate> = Vec::new();
        match i_opt {
            Some(i) => {
                let st = self.streams[i];
                proof {
                    self.lemma_stream_idx_unique(i as int, id);
                }
                let target = match self.local_settings.initial_window_size() {
                    Some(v) => v,
                    None => DEFAULT_INITIAL_WINDOW_SIZE,
                };
                let p_w: i64 = st.pending_window_update as i64 + consumed as i64;
                let p: u32 = p_w as u32;
                let st2 = if st.recv_flow < (target / 2) as i32 && p > 0 {
                    ups.push(WindowUpdate { stream_id: st.id, size_increment: p });
                    let nf: i64 = st.recv_flow as i64 + p as i64;
                    Stream { recv_flow: nf as i32, pending_window_update: 0, ..st }
                } else {
                    Stream { pending_window_update: p, ..st }
                };
                let ghost mid1 = *self;
                vstd::std_specs::core::index_set(&mut self.streams, i, st2);
                proof {
                    self.lemma_wf_after_stream_update(mid1, i as int, st2);
                }
            },
            None => {},
        }
        let ctarget = self.config.local_init_connection_window_sz;
        let cp_w: i64 = self.pending_window_update as i64 + consumed as i64;
        let cp: u32 = cp_w as u32;
        if self.recv_flow < (ctarget / 2) as i32 && cp > 0 {
            ups.push(WindowUpdate { stream_id: StreamId::zero(), size_increment: cp });
            let nf: i64 = self.recv_flow as i64 + cp as i64;
            self.recv_flow = nf as i32;
            self.pending_window_update = 0;
        } else {
            self.pending_window_update = cp;
        }
        Ok(ups)
    }

    /// The send window of a registered stream.
    pub fn stream_send_flow(&self, id: u32) -> (r: Option<i32>)
        requires
            self.wf(),
        ensures
            self.spec_has_stream(id) ==> r == Some(self.spec_stream(id).send_flow),
            !self.spec_has_stream(id) ==> r is None,
    {
        match self.find_stream(id) {
            Some(i) => Some(self.streams[i].send_flow),
            None => None,
        }
    }

    /// The receive window of a registered stream.
    pub fn stream_recv_flow(&self, id: u32) -> (r: Option<i32>)
        requires
            self.wf(),
        ensures
            self.spec_has_stream(id) ==> r == Some(self.spec_stream(id).recv_flow),
            !self.spec_has_stream(id) ==> r is None,
    {
        match self.find_stream(id) {
            Some(i) => Some(self.streams[i].recv_flow),
            None => None,
        }
    }

    /// Whether a stream is (still) registered.
    pub fn has_stream(&self, id: u32) -> (r: bool)
        requires
            self.wf(),
        ensures
            r == self.spec_has_stream(id),
    {
        match self.find_stream(id) {
            Some(_) => true,
            None => false,
        }
    }

    /// The handshake discipline: the first frame the peer delivers must be
    /// SETTINGS; any other first frame is a connection error of type
    /// PROTOCOL_ERROR.
    pub fn first_frame_settings(&mut self, is_settings: bool) -> (r: Result<(), ProtocolError>)
        requires
            old(self).wf(),
        ensures
            final(self).wf(),
            is_settings ==> (r is Ok && *final(self) == *old(self)),
            !is_settings ==> (r == Err::<(), ProtocolError>(ProtocolError::Reason(
                Reason::ProtocolError,
            )) && *final(self) == (Connection { failed: true, ..*old(self) })),
    {
        if is_settings {
            Ok(())
        } else {
            self.failed = true;
            Err(ProtocolError::Reason(Reason::ProtocolError))
        }
    }

    /// Records a connection-fatal error: the connection is closing.
    pub fn proto_error(&mut self)
        requires
            old(self).wf(),
        ensures
            final(self).wf(),
            *final(self) == (Connection { failed: true, ..*old(self) }),
    {
        self.failed = true;
    }
}

/// Stream-id monotonicity: every peer-initiated stream in the registry
/// carries an id no greater than the highest peer id observed, so of any
/// two peer-initiated streams the later-opened one has the strictly
/// greater id.
pub proof fn lemma_peer_stream_ids_bounded(c: &Connection, i: int)
    requires
        c.wf(),
        0 <= i < c.streams@.len(),
        !c.spec_is_local_id(c.streams@[i].id.id),
    ensures
        c.streams@[i].id.id <= c.last_peer_stream_id,
{
}

/// The reset cache of a well-formed connection never exceeds its
/// configured bound.
pub proof fn lemma_reset_cache_bounded(c: &Connection)
    requires
        c.wf(),
    ensures
        c.reset_cache@.len() <= c.config.local_reset_max,
{
}

} // verus!
