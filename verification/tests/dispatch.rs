use h2core::connection::{Config, Connection};
use h2core::control::{ControlMessage, ControlResult};
use h2core::codec::EncoderError;
use h2core::default::DefaultControlService;
use h2core::dispatcher::{DispatchItem, Dispatcher, ShutdownState};
use h2core::error::{ProtocolError, StreamError, StreamErrorInner};
use h2core::frame::{Frame, FrameError, Method, PseudoHeaders, Reason, Reset, StreamId};
use ntex_http::HeaderMap;

fn server() -> Connection {
    Connection::new(Config::server(&h2core::frame::Settings::new(), 65_535, 10_000, 10))
}

fn get_pseudo() -> PseudoHeaders {
    PseudoHeaders {
        method: Some(Method::Get),
        scheme: Some("https".to_string()),
        authority: Some("example.test".to_string()),
        path: Some("/x".to_string()),
        protocol: None,
        status: None,
    }
}

#[test]
fn repeated_shutdown_is_idempotent() {
    let mut d = Dispatcher::new(server());
    assert_eq!(d.shutdown, ShutdownState::NotSet);
    // the first request produces the one terminal control event
    let first = d.poll_shutdown_start(false);
    assert!(matches!(first, Some(ControlMessage::Terminated { is_error: false })));
    assert_eq!(d.shutdown, ShutdownState::InProcess);
    // every repetition does nothing
    assert!(d.poll_shutdown_start(false).is_none());
    assert!(d.poll_shutdown_start(true).is_none());
    assert_eq!(d.shutdown, ShutdownState::InProcess);
    d.shutdown_control_done();
    assert_eq!(d.shutdown, ShutdownState::Done);
    assert!(d.poll_shutdown_start(false).is_none());
    assert_eq!(d.shutdown, ShutdownState::Done);
    assert!(!d.shutdown_ready(true, false));
    assert!(!d.shutdown_ready(false, true));
    assert!(d.shutdown_ready(true, true));
}

#[test]
fn decoder_errors_fold_into_protocol_errors() {
    let mut d = Dispatcher::new(server());
    let r = d.call(DispatchItem::DecoderError(FrameError::BadFrameSize), 0);
    match r.control {
        Some(ControlMessage::ProtoError(ProtocolError::Frame(e))) => {
            assert_eq!(e, FrameError::BadFrameSize);
            // PING with a wrong payload length ends as GOAWAY(FRAME_SIZE_ERROR)
            assert_eq!(ProtocolError::Frame(e).to_goaway().reason, Reason::FrameSizeError);
        }
        other => panic!("expected a protocol error event, got {:?}", other),
    }
    assert!(d.connection.failed);
}

#[test]
fn encoder_errors_fold_into_protocol_errors() {
    let mut d = Dispatcher::new(server());
    let r = d.call(DispatchItem::EncoderError(EncoderError::PayloadTooBig), 0);
    assert!(matches!(
        r.control,
        Some(ControlMessage::ProtoError(ProtocolError::Encoder(EncoderError::PayloadTooBig)))
    ));
}

#[test]
fn disconnect_reports_the_peer_gone() {
    let mut d = Dispatcher::new(server());
    let r = d.call(DispatchItem::Disconnect(Some("connection reset".to_string())), 0);
    assert!(matches!(r.control, Some(ControlMessage::PeerGone(_))));
    let ack = ControlMessage::peer_gone(None).ack();
    assert!(ack.disconnect);
    assert!(ack.frame.is_none());
}

#[test]
fn backpressure_news_is_ignored() {
    let mut d = Dispatcher::new(server());
    let r = d.call(DispatchItem::WBackPressureEnabled, 0);
    assert!(r.control.is_none() && r.publish.is_none() && r.frames.is_empty());
    let r = d.call(DispatchItem::WBackPressureDisabled, 0);
    assert!(r.control.is_none() && r.publish.is_none() && r.frames.is_empty());
}

#[test]
fn default_control_service_acknowledges() {
    let svc = DefaultControlService;
    let err = ProtocolError::KeepaliveTimeout;
    let res = svc.call(ControlMessage::proto_error(err));
    assert!(res.disconnect);
    match res.frame {
        Some(Frame::GoAway(g)) => assert_eq!(g.reason(), Reason::NoError),
        other => panic!("expected GOAWAY, got {:?}", other),
    }

    let inner = StreamErrorInner::new(StreamId::new(3), StreamError::WrongPayloadLength);
    let res = svc.call(ControlMessage::stream_error(inner));
    assert!(!res.disconnect);
    match res.frame {
        Some(Frame::Reset(rst)) => {
            assert_eq!(rst.stream_id().id, 3);
            assert_eq!(rst.reason(), Reason::ProtocolError);
        }
        other => panic!("expected RST_STREAM, got {:?}", other),
    }

    let res = svc.call(ControlMessage::terminated(true));
    assert!(!res.disconnect);
    assert!(res.frame.is_none());
}

#[test]
fn control_reset_answers_also_reset_the_stream() {
    let mut d = Dispatcher::new(server());
    d.call(
        DispatchItem::Item(Frame::Headers(h2core::frame::Headers {
            stream_id: StreamId::new(1),
            pseudo: get_pseudo(),
            headers: HeaderMap::default(),
            eof: false,
        })),
        0,
    );
    assert!(d.connection.has_stream(1));
    let answer = ControlResult {
        frame: Some(Frame::Reset(Reset::new(StreamId::new(1), Reason::Cancel))),
        disconnect: false,
    };
    let (frame, disconnect) = d.handle_control_result(Ok(answer), 0);
    assert!(!disconnect);
    assert!(matches!(frame, Some(Frame::Reset(_))));
    assert!(!d.connection.has_stream(1));
}

#[test]
fn failed_control_service_is_terminal() {
    let mut d = Dispatcher::new(server());
    let (frame, disconnect) = d.handle_control_result(Err(()), 0);
    assert!(disconnect);
    match frame {
        Some(Frame::GoAway(g)) => assert_eq!(g.reason(), Reason::InternalError),
        other => panic!("expected GOAWAY(INTERNAL_ERROR), got {:?}", other),
    }
}

#[test]
fn app_errors_reset_their_stream() {
    let msg = ControlMessage::app_error("the application failed".to_string(), StreamId::new(7));
    let ack = msg.ack();
    assert!(!ack.disconnect);
    match ack.frame {
        Some(Frame::Reset(rst)) => {
            assert_eq!(rst.stream_id().id, 7);
            assert_eq!(rst.reason(), Reason::InternalError);
        }
        other => panic!("expected RST_STREAM, got {:?}", other),
    }
}
