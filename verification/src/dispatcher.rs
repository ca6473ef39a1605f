//! The dispatcher: pumps transport-delivered items into the connection,
//! routes message boundaries to the publish service and protocol errors to
//! the control service, and supervises shutdown.
//!
//! This layer is purely decisions: the surrounding runtime performs the
//! service calls and I/O, and hands every outcome back in as a plain value.

use vstd::prelude::*;
use crate::codec::EncoderError;
use crate::connection::{Connection, GoAwayInfo};
use crate::control::{ControlMessage, ControlResult};
use crate::error::{ProtocolError, RecvError};
use crate::frame::{Frame, FrameError, GoAway, Reason, Reset, Settings, StreamId};
use crate::frame::ping::Ping;
use crate::message::Message;

verus! {

/// One item delivered by the transport: a typed frame, a codec failure, a
/// keep-alive timeout, a disconnect, or write-backpressure news.
#[derive(Debug)]
pub enum DispatchItem {
    Item(Frame),
    EncoderError(EncoderError),
    DecoderError(FrameError),
    KeepAliveTimeout,
    Disconnect(Option<String>),
    WBackPressureEnabled,
    WBackPressureDisabled,
}

/// What one dispatch step decided: at most one message for the publish
/// service, at most one event for the control service, frames to write to
/// the transport, and locally-initiated streams a peer GOAWAY abandoned.
#[derive(Debug)]
pub struct DispatchResult {
    pub publish: Option<Message>,
    pub control: Option<ControlMessage>,
    pub frames: Vec<Frame>,
    pub aborted: Vec<u32>,
}

/// Where the one-shot shutdown sequence stands.
#[derive(Clone, Copy, PartialEq, Eq, Structural, Debug)]
pub enum ShutdownState {
    NotSet,
    InProcess,
    Done,
}

/// The engine side of the dispatcher: the connection it owns and the
/// shutdown bookkeeping.
#[derive(Debug)]
pub struct Dispatcher {
    pub connection: Connection,
    pub shutdown: ShutdownState,
}

/// How the dispatcher folds a message-bearing outcome for the services:
/// the message goes to publish; a connection error poisons the connection
/// and goes to control; a stream error goes to control for the RST_STREAM
/// answer. `conn1` is the connection right after the frame was handled,
/// `conn2` the connection the dispatcher leaves behind.
pub open spec fn spec_fold_message(
    conn1: Connection,
    res: Result<Option<Message>, RecvError>,
    conn2: Connection,
    r: DispatchResult,
) -> bool {
    &&& r.frames@.len() == 0
    &&& r.aborted@.len() == 0
    &&& match res {
        Ok(m) => r.publish == m && r.control is None && conn2 == conn1,
        Err(RecvError::Connection(e)) => r.publish is None && (r.control matches Some(
            ControlMessage::ProtoError(e2),
        ) && e2 == e) && conn2 == (Connection { failed: true, ..conn1 }),
        Err(RecvError::Stream(inner)) => r.publish is None && r.control == Some(
            ControlMessage::StreamFailed(inner),
        ) && conn2 == conn1,
    }
}

/// How the dispatcher folds a SETTINGS outcome: the acknowledgement the
/// connection handed back is the one frame to send; an error poisons the
/// connection and goes to control.
pub open spec fn spec_fold_settings(
    conn1: Connection,
    res: Result<Option<Settings>, ProtocolError>,
    conn2: Connection,
    r: DispatchResult,
) -> bool {
    &&& r.publish is None
    &&& r.aborted@.len() == 0
    &&& match res {
        Ok(Some(ack)) => r.control is None && r.frames@ == seq![Frame::Settings(ack)] && conn2
            == conn1,
        Ok(None) => r.control is None && r.frames@.len() == 0 && conn2 == conn1,
        Err(e) => (r.control matches Some(ControlMessage::ProtoError(e2)) && e2 == e)
            && r.frames@.len() == 0 && conn2 == (Connection { failed: true, ..conn1 }),
    }
}

impl Dispatcher {
    pub fn new(connection: Connection) -> (r: Dispatcher)
        ensures
            r.connection == connection,
            r.shutdown is NotSet,
    {
        Dispatcher { connection, shutdown: ShutdownState::NotSet }
    }

    /// Folds the outcome of a message-bearing frame (HEADERS or DATA): a
    /// message goes to publish, a connection error poisons the connection
    /// and goes to control, a stream error goes to control for the
    /// RST_STREAM answer.
    pub fn handle_message(&mut self, result: Result<Option<Message>, RecvError>) -> (r:
        DispatchResult)
        requires
            old(self).connection.wf(),
        ensures
            final(self).connection.wf(),
            final(self).shutdown == old(self).shutdown,
            r.frames@.len() == 0 && r.aborted@.len() == 0,
            result matches Ok(m) ==> (r.publish == m && r.control is None && *final(self) == *old(self)),
            result matches Err(RecvError::Connection(e)) ==> (r.publish is None && (
            r.control matches Some(ControlMessage::ProtoError(e2)) && e2 == e)
                && final(self).connection == (Connection { failed: true, ..old(self).connection })
                && final(self).shutdown == old(self).shutdown),
            result matches Err(RecvError::Stream(inner)) ==> (r.publish is None && r.control
                == Some(ControlMessage::StreamFailed(inner)) && *final(self) == *old(self)),
    {
        match result {
            Ok(m) => DispatchResult {
                publish: m,
                control: None,
                frames: Vec::new(),
                aborted: Vec::new(),
            },
            Err(RecvError::Connection(e)) => {
                self.connection.proto_error();
                DispatchResult {
                    publish: None,
                    control: Some(ControlMessage::proto_error(e)),
                    frames: Vec::new(),
                    aborted: Vec::new(),
                }
            },
            Err(RecvError::Stream(inner)) => DispatchResult {
                publish: None,
                control: Some(ControlMessage::stream_error(inner)),
                frames: Vec::new(),
                aborted: Vec::new(),
            },
        }
    }

    /// Folds the outcome of a connection-scoped frame (SETTINGS): errors
    /// poison the connection and go to control.
    pub fn handle_proto_error(&mut self, result: Result<(), ProtocolError>) -> (r:
        DispatchResult)
        requires
            old(self).connection.wf(),
        ensures
            final(self).connection.wf(),
            final(self).shutdown == old(self).shutdown,
            r.publish is None && r.frames@.len() == 0 && r.aborted@.len() == 0,
            result is Ok ==> (r.control is None && *final(self) == *old(self)),
            result matches Err(e) ==> ((r.control matches Some(ControlMessage::ProtoError(e2))
                && e2 == e) && final(self).connection == (Connection {
                failed: true,
                ..old(self).connection
            }) && final(self).shutdown == old(self).shutdown),
    {
        match result {
            Ok(()) => DispatchResult {
                publish: None,
                control: None,
                frames: Vec::new(),
                aborted: Vec::new(),
            },
            Err(e) => {
                self.connection.proto_error();
                DispatchResult {
                    publish: None,
                    control: Some(ControlMessage::proto_error(e)),
                    frames: Vec::new(),
                    aborted: Vec::new(),
                }
            },
        }
    }

    /// Folds an outcome that may carry either error scope (WINDOW_UPDATE,
    /// RST_STREAM).
    pub fn handle_mixed_error(&mut self, result: Result<Option<Message>, RecvError>) -> (r:
        DispatchResult)
        requires
            old(self).connection.wf(),
        ensures
            final(self).connection.wf(),
            final(self).shutdown == old(self).shutdown,
            r.frames@.len() == 0 && r.aborted@.len() == 0,
            result matches Ok(m) ==> (r.publish == m && r.control is None && *final(self) == *old(self)),
            result matches Err(RecvError::Connection(e)) ==> (r.publish is None && (
            r.control matches Some(ControlMessage::ProtoError(e2)) && e2 == e)
                && final(self).connection == (Connection { failed: true, ..old(self).connection })
                && final(self).shutdown == old(self).shutdown),
            result matches Err(RecvError::Stream(inner)) ==> (r.publish is None && r.control
                == Some(ControlMessage::StreamFailed(inner)) && *final(self) == *old(self)),
    {
        self.handle_message(result)
    }

    /// Classifies one transport item and advances the connection.
    ///
    /// HEADERS and DATA may yield a message for publish; SETTINGS yields
    /// exactly one acknowledgement frame when accepted; PING is answered
    /// with its echo unless it is itself an answer; GOAWAY marks the
    /// connection draining and reports the abandoned local streams;
    /// PRIORITY and backpressure news are accepted and ignored; codec
    /// failures and the keep-alive timeout are folded into protocol errors
    /// for the control service; a disconnect is reported as the peer being
    /// gone.
    pub fn call(&mut self, item: DispatchItem, now_ms: u64) -> (r: DispatchResult)
        requires
            old(self).connection.wf(),
            item matches DispatchItem::Item(f) ==> (f matches Frame::Headers(h)
                ==> h.stream_id.wf()),
        ensures
            final(self).connection.wf(),
            final(self).shutdown == old(self).shutdown,
            item matches DispatchItem::Item(f) ==> ((f matches Frame::Ping(p) ==> (*final(self)
                == *old(self) && r.publish is None && r.control is None && (if p.ack {
                r.frames@.len() == 0
            } else {
                r.frames@ == seq![Frame::Ping(Ping { ack: true, payload: p.payload })]
            }))) && (f matches Frame::Priority(_) ==> (*final(self) == *old(self) && r.publish is None
                && r.control is None && r.frames@.len() == 0)) && (f matches Frame::GoAway(g)
                ==> (r.publish is None && (r.control matches Some(ControlMessage::GoneAway(g2))
                && g2 == g) && r.frames@.len() == 0))),
            item is KeepAliveTimeout ==> (final(self).connection == (Connection {
                failed: true,
                ..old(self).connection
            }) && r.publish is None && r.control == Some(ControlMessage::ProtoError(
                ProtocolError::KeepaliveTimeout,
            )) && r.frames@.len() == 0),
            item matches DispatchItem::EncoderError(e) ==> (final(self).connection == (Connection {
                failed: true,
                ..old(self).connection
            }) && r.publish is None && (r.control matches Some(ControlMessage::ProtoError(
                ProtocolError::Encoder(e2),
            )) && e2 == e) && r.frames@.len() == 0),
            item matches DispatchItem::DecoderError(e) ==> (final(self).connection == (Connection {
                failed: true,
                ..old(self).connection
            }) && r.publish is None && (r.control matches Some(ControlMessage::ProtoError(
                ProtocolError::Frame(e2),
            )) && e2 == e) && r.frames@.len() == 0),
            item matches DispatchItem::Disconnect(e) ==> (*final(self) == *old(self)
                && r.publish is None && r.control == Some(ControlMessage::PeerGone(e))
                && r.frames@.len() == 0),
            item is WBackPressureEnabled || item is WBackPressureDisabled ==> (*final(self) == *old(self) && r.publish is None && r.control is None && r.frames@.len() == 0),
            item matches DispatchItem::Item(f) ==> (!(f is GoAway) ==> r.aborted@.len() == 0),
            item matches DispatchItem::Item(f) ==> (f matches Frame::Headers(h) ==> exists|
                mid: Connection,
                res: Result<Option<Message>, RecvError>,
            |
                #[trigger] Connection::spec_recv_headers_post(
                    old(self).connection,
                    h,
                    now_ms,
                    mid,
                    res,
                ) && spec_fold_message(mid, res, final(self).connection, r)),
            item matches DispatchItem::Item(f) ==> (f matches Frame::Data(d) ==> exists|
                mid: Connection,
                res: Result<Option<Message>, RecvError>,
            |
                #[trigger] Connection::spec_recv_data_post(
                    old(self).connection,
                    d,
                    now_ms,
                    mid,
                    res,
                ) && spec_fold_message(mid, res, final(self).connection, r)),
            item matches DispatchItem::Item(f) ==> (f matches Frame::Reset(rst) ==> exists|
                mid: Connection,
                res: Result<Option<Message>, RecvError>,
            |
                #[trigger] Connection::spec_recv_rst_stream_post(
                    old(self).connection,
                    rst,
                    mid,
                    res,
                ) && spec_fold_message(mid, res, final(self).connection, r)),
            item matches DispatchItem::Item(f) ==> (f matches Frame::WindowUpdate(w) ==> exists|
                mid: Connection,
                res0: Result<(), RecvError>,
            |
                #[trigger] Connection::spec_recv_window_update_post(
                    old(self).connection,
                    w,
                    mid,
                    res0,
                ) && spec_fold_message(
                    mid,
                    match res0 {
                        Ok(_) => Ok::<Option<Message>, RecvError>(None),
                        Err(e) => Err::<Option<Message>, RecvError>(e),
                    },
                    final(self).connection,
                    r,
                )),
            item matches DispatchItem::Item(f) ==> (f matches Frame::Settings(sf) ==> exists|
                mid: Connection,
                res1: Result<Option<Settings>, ProtocolError>,
            |
                #[trigger] Connection::spec_recv_settings_post(
                    old(self).connection,
                    sf,
                    mid,
                    res1,
                ) && spec_fold_settings(mid, res1, final(self).connection, r)),
            item matches DispatchItem::Item(f) ==> (f matches Frame::GoAway(g)
                ==> Connection::spec_recv_go_away_post(
                old(self).connection,
                g.last_stream_id.id,
                g.reason,
                final(self).connection,
                r.aborted@,
            )),
            !(item matches DispatchItem::Item(_)) ==> r.aborted@.len() == 0,
    {
        match item {
            DispatchItem::Item(frame) => match frame {
                Frame::Headers(hdrs) => {
                    let ghost hg = hdrs;
                    let result = self.connection.recv_headers(hdrs, now_ms);
                    let ghost mid = self.connection;
                    let ghost resg = result;
                    let out = self.handle_message(result);
                    proof {
                        assert(Connection::spec_recv_headers_post(
                            old(self).connection,
                            hg,
                            now_ms,
                            mid,
                            resg,
                        ));
                        assert(spec_fold_message(mid, resg, self.connection, out));
                    }
                    out
                },
                Frame::Data(data) => {
                    let ghost dg = data;
                    let result = self.connection.recv_data(data, now_ms);
                    let ghost mid = self.connection;
                    let ghost resg = result;
                    let out = self.handle_message(result);
                    proof {
                        assert(Connection::spec_recv_data_post(
                            old(self).connection,
                            dg,
                            now_ms,
                            mid,
                            resg,
                        ));
                        assert(spec_fold_message(mid, resg, self.connection, out));
                    }
                    out
                },
                Frame::Settings(settings) => {
                    let result1 = self.connection.recv_settings(&settings);
                    let ghost mid = self.connection;
                    let ghost res1g = result1;
                    let out = match result1 {
                        Ok(Some(ack)) => {
                            let mut frames: Vec<Frame> = Vec::new();
                            frames.push(Frame::Settings(ack));
                            proof {
                                assert(frames@ =~= seq![Frame::Settings(ack)]);
                            }
                            DispatchResult {
                                publish: None,
                                control: None,
                                frames,
                                aborted: Vec::new(),
                            }
                        },
                        Ok(None) => DispatchResult {
                            publish: None,
                            control: None,
                            frames: Vec::new(),
                            aborted: Vec::new(),
                        },
                        Err(e) => {
                            let folded: Result<(), ProtocolError> = Err(e);
                            self.handle_proto_error(folded)
                        },
                    };
                    proof {
                        assert(Connection::spec_recv_settings_post(
                            old(self).connection,
                            settings,
                            mid,
                            res1g,
                        ));
                        assert(spec_fold_settings(mid, res1g, self.connection, out));
                    }
                    out
                },
                Frame::WindowUpdate(update) => {
                    let result0 = self.connection.recv_window_update(update);
                    let ghost mid = self.connection;
                    let ghost res0g = result0;
                    let result = match result0 {
                        Ok(()) => Ok(None),
                        Err(e) => Err(e),
                    };
                    let out = self.handle_mixed_error(result);
                    proof {
                        assert(Connection::spec_recv_window_update_post(
                            old(self).connection,
                            update,
                            mid,
                            res0g,
                        ));
                        assert(spec_fold_message(
                            mid,
                            match res0g {
                                Ok(_) => Ok::<Option<Message>, RecvError>(None),
                                Err(e) => Err::<Option<Message>, RecvError>(e),
                            },
                            self.connection,
                            out,
                        ));
                    }
                    out
                },
                Frame::Reset(reset) => {
                    let result = self.connection.recv_rst_stream(reset, now_ms);
                    let ghost mid = self.connection;
                    let ghost resg = result;
                    let out = self.handle_mixed_error(result);
                    proof {
                        assert(Connection::spec_recv_rst_stream_post(
                            old(self).connection,
                            reset,
                            mid,
                            resg,
                        ));
                        assert(spec_fold_message(mid, resg, self.connection, out));
                    }
                    out
                },
                Frame::Ping(ping) => {
                    if ping.is_ack() {
                        DispatchResult {
                            publish: None,
                            control: None,
                            frames: Vec::new(),
                            aborted: Vec::new(),
                        }
                    } else {
                        let mut frames: Vec<Frame> = Vec::new();
                        frames.push(Frame::Ping(Ping::pong(ping.into_payload())));
                        proof {
                            assert(frames@ =~= seq![
                                Frame::Ping(Ping { ack: true, payload: ping.payload }),
                            ]);
                        }
                        DispatchResult { publish: None, control: None, frames, aborted: Vec::new() }
                    }
                },
                Frame::GoAway(frm) => {
                    let aborted = self.connection.recv_go_away(
                        frm.last_stream_id.id,
                        frm.reason(),
                    );
                    DispatchResult {
                        publish: None,
                        control: Some(ControlMessage::go_away(frm)),
                        frames: Vec::new(),
                        aborted,
                    }
                },
                Frame::Priority(_) => DispatchResult {
                    publish: None,
                    control: None,
                    frames: Vec::new(),
                    aborted: Vec::new(),
                },
            },
            DispatchItem::EncoderError(err) => {
                self.connection.proto_error();
                DispatchResult {
                    publish: None,
                    control: Some(ControlMessage::proto_error(ProtocolError::Encoder(err))),
                    frames: Vec::new(),
                    aborted: Vec::new(),
                }
            },
            DispatchItem::DecoderError(err) => {
                self.connection.proto_error();
                DispatchResult {
                    publish: None,
                    control: Some(ControlMessage::proto_error(ProtocolError::Frame(err))),
                    frames: Vec::new(),
                    aborted: Vec::new(),
                }
            },
            DispatchItem::KeepAliveTimeout => {
                self.connection.proto_error();
                DispatchResult {
                    publish: None,
                    control: Some(ControlMessage::proto_error(ProtocolError::KeepaliveTimeout)),
                    frames: Vec::new(),
                    aborted: Vec::new(),
                }
            },
            DispatchItem::Disconnect(e) => DispatchResult {
                publish: None,
                control: Some(ControlMessage::peer_gone(e)),
                frames: Vec::new(),
                aborted: Vec::new(),
            },
            DispatchItem::WBackPressureEnabled => DispatchResult {
                publish: None,
                control: None,
                frames: Vec::new(),
                aborted: Vec::new(),
            },
            DispatchItem::WBackPressureDisabled => DispatchResult {
                publish: None,
                control: None,
                frames: Vec::new(),
                aborted: Vec::new(),
            },
        }
    }

    /// Applies what the control service answered: a RST_STREAM frame with a
    /// nonzero stream id also resets that stream; a GOAWAY frame is stamped
    /// with the last peer stream id and recorded as sent. A failed control
    /// service is terminal: the answer is an unconditional
    /// GOAWAY(INTERNAL_ERROR) and the transport closes.
    pub fn handle_control_result(&mut self, res: Result<ControlResult, ()>, now_ms: u64) -> (r: (
        Option<Frame>,
        bool,
    ))
        requires
            old(self).connection.wf(),
        ensures
            final(self).connection.wf(),
            final(self).shutdown == old(self).shutdown,
            res matches Err(_) ==> ({
                &&& (r.0 matches Some(Frame::GoAway(g)) && g.reason == Reason::InternalError
                    && g.last_stream_id.id == old(self).connection.last_peer_stream_id)
                &&& r.1
            }),
            res matches Ok(cr) ==> r.1 == cr.disconnect,
            res matches Ok(cr) ==> (cr.frame matches Some(Frame::GoAway(g)) ==> ({
                &&& (r.0 matches Some(Frame::GoAway(g2)) && g2.reason == g.reason
                    && g2.last_stream_id.id == old(self).connection.last_peer_stream_id
                    && g2.data@ == g.data@)
                &&& final(self).connection == (Connection {
                    goaway_sent: Some(GoAwayInfo {
                        last_stream_id: old(self).connection.last_peer_stream_id,
                        reason: g.reason,
                    }),
                    ..old(self).connection
                })
            })),
            res matches Ok(cr) ==> (cr.frame matches Some(Frame::Reset(rst)) ==> ({
                &&& r.0 == Some(Frame::Reset(rst))
                &&& (rst.stream_id.id == 0 ==> *final(self) == *old(self))
                &&& (rst.stream_id.id != 0 ==> exists|ores: Option<Reset>|
                    #[trigger] Connection::spec_rst_stream_post(
                        old(self).connection,
                        rst.stream_id.id,
                        rst.reason,
                        final(self).connection,
                        ores,
                    ))
            })),
            res matches Ok(cr) ==> (cr.frame is None ==> (r.0 is None && *final(self) == *old(
                self,
            ))),
            res matches Ok(cr) ==> ((cr.frame matches Some(fr) && !(fr is Reset) && !(
            fr is GoAway)) ==> (r.0 == cr.frame && *final(self) == *old(self))),
    {
        match res {
            Ok(cr) => {
                let disconnect = cr.disconnect;
                match cr.frame {
                    Some(Frame::Reset(rst)) => {
                        if rst.stream_id().is_zero() {
                            (Some(Frame::Reset(rst)), disconnect)
                        } else {
                            let ores = self.connection.rst_stream(
                                rst.stream_id().id,
                                rst.reason(),
                                now_ms,
                            );
                            proof {
                                assert(Connection::spec_rst_stream_post(
                                    old(self).connection,
                                    rst.stream_id.id,
                                    rst.reason,
                                    self.connection,
                                    ores,
                                ));
                            }
                            (Some(Frame::Reset(rst)), disconnect)
                        }
                    },
                    Some(Frame::GoAway(g)) => {
                        let last = self.connection.last_peer_stream_id;
                        let reason = g.reason();
                        let stamped = g.set_last_stream_id(StreamId::new(last));
                        self.connection.goaway_sent = Some(
                            GoAwayInfo { last_stream_id: last, reason },
                        );
                        (Some(Frame::GoAway(stamped)), disconnect)
                    },
                    Some(other) => (Some(other), disconnect),
                    None => (None, disconnect),
                }
            },
            Err(()) => {
                let last = self.connection.last_peer_stream_id;
                let frame = GoAway::new(Reason::InternalError).set_last_stream_id(
                    StreamId::new(last),
                );
                (Some(Frame::GoAway(frame)), true)
            },
        }
    }

    /// Dispatcher readiness: the dispatcher accepts the next item only
    /// when both the publish service and the control service are ready.
    pub fn ready(&self, publish_ready: bool, control_ready: bool) -> (r: bool)
        ensures
            r == (publish_ready && control_ready),
    {
        publish_ready && control_ready
    }

    /// First phase of shutdown: on the first request the control service
    /// is handed a `Terminated` event; any repetition does nothing.
    /// Shutdown is idempotent: once it has begun, no second terminal event
    /// is ever produced and the state only moves forward.
    pub fn poll_shutdown_start(&mut self, is_error: bool) -> (r: Option<ControlMessage>)
        ensures
            final(self).connection == old(self).connection,
            old(self).shutdown is NotSet ==> (r == Some(ControlMessage::Terminated { is_error })
                && final(self).shutdown is InProcess),
            !(old(self).shutdown is NotSet) ==> (r is None && *final(self) == *old(self)),
    {
        match self.shutdown {
            ShutdownState::NotSet => {
                self.shutdown = ShutdownState::InProcess;
                Some(ControlMessage::terminated(is_error))
            },
            ShutdownState::InProcess => None,
            ShutdownState::Done => None,
        }
    }

    /// Second phase: the control service finished its terminal call.
    pub fn shutdown_control_done(&mut self)
        ensures
            final(self).connection == old(self).connection,
            old(self).shutdown is InProcess ==> final(self).shutdown is Done,
            !(old(self).shutdown is InProcess) ==> *final(self) == *old(self),
    {
        if matches!(self.shutdown, ShutdownState::InProcess) {
            self.shutdown = ShutdownState::Done;
        }
    }

    /// Third phase: shutdown completes once the terminal control call is
    /// done and both services report themselves idle.
    pub fn shutdown_ready(&self, publish_idle: bool, control_idle: bool) -> (r: bool)
        ensures
            r == (self.shutdown is Done && publish_idle && control_idle),
    {
        matches!(self.shutdown, ShutdownState::Done) && publish_idle && control_idle
    }
}

/// Repeated shutdown requests are idempotent: however often shutdown is
/// begun, the terminal event is produced at most once — only the very
/// first request sees the untouched state, and every later one leaves the
/// dispatcher exactly as it found it.
pub proof fn lemma_shutdown_idempotent(s: ShutdownState)
    ensures
        !(s is NotSet) ==> spec_shutdown_next(s) == s,
        spec_shutdown_next(spec_shutdown_next(s)) == spec_shutdown_next(s),
{
}

/// Where one shutdown request moves the state.
pub open spec fn spec_shutdown_next(s: ShutdownState) -> ShutdownState {
    match s {
        ShutdownState::NotSet => ShutdownState::InProcess,
        ShutdownState::InProcess => ShutdownState::InProcess,
        ShutdownState::Done => ShutdownState::Done,
    }
}

} // verus!
