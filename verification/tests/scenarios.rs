use h2core::connection::{Config, Connection};
use h2core::control::ControlMessage;
use h2core::dispatcher::{DispatchItem, Dispatcher};
use h2core::error::OperationError;
use h2core::frame::{
    Data, Frame, GoAway, Headers, Method, PseudoHeaders, Reason, Settings, StreamId, WindowUpdate,
};
use h2core::message::{MessageKind, StreamEof};
use ntex_bytes::Bytes;
use ntex_http::HeaderMap;

fn server() -> Connection {
    Connection::new(Config::server(&Settings::new(), 65_535, 10_000, 10))
}

fn client() -> Connection {
    Connection::new(Config::client(&Settings::new(), 65_535, 10_000, 10))
}

fn get_pseudo() -> PseudoHeaders {
    PseudoHeaders {
        method: Some(Method::Get),
        scheme: Some("https".to_string()),
        authority: Some("example.test".to_string()),
        path: Some("/x".to_string()),
        protocol: None,
        status: None,
    }
}

fn status_pseudo(status: u16) -> PseudoHeaders {
    PseudoHeaders { status: Some(status), ..PseudoHeaders::empty() }
}

/// A GET request answered with headers and a short body, both engines
/// observing the exchange.
#[test]
fn happy_get_response() {
    // the server engine sees the request headers with END_STREAM
    let mut srv = server();
    let msg = srv
        .recv_headers(
            Headers {
                stream_id: StreamId::new(1),
                pseudo: get_pseudo(),
                headers: HeaderMap::default(),
                eof: true,
            },
            0,
        )
        .expect("opens")
        .expect("one headers event");
    assert_eq!(msg.stream.id, 1);
    match &msg.kind {
        MessageKind::Headers { eof, .. } => assert!(*eof),
        other => panic!("expected a headers event, got {:?}", other),
    }

    // the server answers: HEADERS(:status 200) then DATA("hi", END_STREAM)
    let resp = srv
        .send_headers(1, status_pseudo(200), HeaderMap::default(), false, 0)
        .expect("response goes out");
    assert_eq!(resp.stream_id.id, 1);
    let out = srv.send_data(1, Bytes::from_static(b"hi"), true, 0).expect("fits the window");
    assert_eq!(out.frames.len(), 1);
    assert!(out.blocked.is_none());
    assert!(out.frames[0].eof);

    // the client engine opened stream 1 and sees the response
    let mut cli = client();
    let (sid, _req) = cli
        .send_request(get_pseudo(), HeaderMap::default(), true)
        .expect("request goes out");
    assert_eq!(sid.id, 1);
    let m1 = cli
        .recv_headers(
            Headers {
                stream_id: StreamId::new(1),
                pseudo: status_pseudo(200),
                headers: HeaderMap::default(),
                eof: false,
            },
            0,
        )
        .expect("accepted")
        .expect("headers event");
    assert!(matches!(m1.kind, MessageKind::Headers { eof: false, .. }));
    let m2 = cli
        .recv_data(
            Data { stream_id: StreamId::new(1), payload: Bytes::from_static(b"hi"), eof: true },
            0,
        )
        .expect("accepted")
        .expect("terminal event");
    match m2.kind {
        MessageKind::Eof(StreamEof::Data(d)) => assert_eq!(d, Bytes::from_static(b"hi")),
        other => panic!("expected Eof(Data), got {:?}", other),
    }
}

/// A content-length of five answered by three octets with END_STREAM: the
/// stream is reset with PROTOCOL_ERROR and the control service is told.
#[test]
fn content_length_mismatch() {
    let mut d = Dispatcher::new(server());
    let mut hm = HeaderMap::default();
    hm.insert(
        ntex_http::header::CONTENT_LENGTH,
        ntex_http::header::HeaderValue::from_static("5"),
    );
    let r = d.call(
        DispatchItem::Item(Frame::Headers(Headers {
            stream_id: StreamId::new(3),
            pseudo: get_pseudo(),
            headers: hm,
            eof: false,
        })),
        0,
    );
    assert!(r.publish.is_some());
    let r = d.call(
        DispatchItem::Item(Frame::Data(Data {
            stream_id: StreamId::new(3),
            payload: Bytes::from_static(b"abc"),
            eof: true,
        })),
        0,
    );
    let control = r.control.expect("a stream error event");
    let ack = control.ack();
    match ack.frame {
        Some(Frame::Reset(rst)) => {
            assert_eq!(rst.stream_id().id, 3);
            assert_eq!(rst.reason(), Reason::ProtocolError);
        }
        other => panic!("expected RST_STREAM, got {:?}", other),
    }
    assert!(!ack.disconnect);
}

/// With a 10-octet send window, 25 octets go out as 10 now and 15 after
/// the windows reopen, the final chunk carrying END_STREAM.
#[test]
fn flow_control_wait() {
    let mut cli = client();
    // the peer announces a 10-octet initial window
    cli.recv_settings(&Settings { initial_window_size: Some(10), ..Settings::new() })
        .expect("accepted");
    let (sid, _req) = cli
        .send_request(get_pseudo(), HeaderMap::default(), false)
        .expect("request goes out");
    assert_eq!(sid.id, 1);

    let payload: Vec<u8> = vec![7u8; 25];
    let out = cli
        .send_data(1, Bytes::copy_from_slice(&payload), true, 0)
        .expect("stream can send");
    assert_eq!(out.frames.len(), 1);
    assert_eq!(out.frames[0].payload.len(), 10);
    assert!(!out.frames[0].eof);
    let rest = out.blocked.expect("producer parks on the remaining 15");
    assert_eq!(rest.len(), 15);

    // the peer reopens both windows
    cli.recv_window_update(WindowUpdate { stream_id: StreamId::new(1), size_increment: 15 })
        .expect("stream window grows");
    cli.recv_window_update(WindowUpdate { stream_id: StreamId::zero(), size_increment: 15 })
        .expect("connection window grows");

    let out = cli.send_data(1, rest, true, 0).expect("stream can send");
    assert_eq!(out.frames.len(), 1);
    assert_eq!(out.frames[0].payload.len(), 15);
    assert!(out.frames[0].eof);
    assert!(out.blocked.is_none());
}

/// After the peer's GOAWAY(last=3) streams 1 and 3 continue, stream 5 is
/// failed, and no new stream may be opened.
#[test]
fn goaway_draining() {
    let mut cli = client();
    for expected in [1u32, 3, 5] {
        let (sid, _f) = cli
            .send_request(get_pseudo(), HeaderMap::default(), false)
            .expect("request goes out");
        assert_eq!(sid.id, expected);
    }
    let aborted = cli.recv_go_away(3, Reason::NoError);
    assert_eq!(aborted, vec![5u32]);
    // streams 1 and 3 still send; stream 5 is closed
    assert!(cli.send_data(1, Bytes::from_static(b"a"), false, 0).is_ok());
    assert!(cli.send_data(3, Bytes::from_static(b"a"), false, 0).is_ok());
    match cli.send_data(5, Bytes::from_static(b"a"), false, 0) {
        Err(OperationError::Closed(reason)) => assert_eq!(reason, Some(Reason::NoError)),
        other => panic!("expected the closed error, got {:?}", other),
    }
    // no new local streams
    match cli.send_request(get_pseudo(), HeaderMap::default(), false) {
        Err(OperationError::Closed(reason)) => assert_eq!(reason, Some(Reason::NoError)),
        other => panic!("expected the closed error, got {:?}", other),
    }
}

/// Late DATA for a locally-reset stream is absorbed while the reset cache
/// remembers it; once the entry expired, the same DATA ends the
/// connection with STREAM_CLOSED.
#[test]
fn reset_then_late_data() {
    let mut cli = client();
    for _ in 0..4 {
        cli.send_request(get_pseudo(), HeaderMap::default(), false).expect("opens");
    }
    let rst = cli.rst_stream(7, Reason::Cancel, 1_000).expect("stream 7 was live");
    assert_eq!(rst.stream_id().id, 7);
    assert_eq!(rst.reason(), Reason::Cancel);

    // within the reset window the late frame is dropped silently
    let late = Data { stream_id: StreamId::new(7), payload: Bytes::from_static(b"x"), eof: false };
    let r = cli.recv_data(late, 2_000).expect("absorbed");
    assert!(r.is_none());

    // after the 10_000 ms reset window expired, it ends the connection
    let later = Data { stream_id: StreamId::new(7), payload: Bytes::from_static(b"x"), eof: false };
    match cli.recv_data(later, 12_000) {
        Err(h2core::error::RecvError::Connection(e)) => {
            assert_eq!(e.to_goaway().reason, Reason::StreamClosed);
        }
        other => panic!("expected STREAM_CLOSED, got {:?}", other),
    }
}

/// A keep-alive timeout becomes GOAWAY(NO_ERROR, last peer stream id) and
/// the control service is told, after which the transport closes.
#[test]
fn keep_alive_timeout() {
    let mut d = Dispatcher::new(server());
    d.call(
        DispatchItem::Item(Frame::Headers(Headers {
            stream_id: StreamId::new(1),
            pseudo: get_pseudo(),
            headers: HeaderMap::default(),
            eof: true,
        })),
        0,
    );
    let r = d.call(DispatchItem::KeepAliveTimeout, 0);
    let control = r.control.expect("a protocol error event");
    assert!(matches!(
        control,
        ControlMessage::ProtoError(h2core::error::ProtocolError::KeepaliveTimeout)
    ));
    let ack = control.ack();
    assert!(ack.disconnect);
    let (frame, disconnect) = d.handle_control_result(Ok(ack), 0);
    assert!(disconnect);
    match frame {
        Some(Frame::GoAway(g)) => {
            assert_eq!(g.reason(), Reason::NoError);
            assert_eq!(g.last_stream_id.id, 1);
        }
        other => panic!("expected GOAWAY, got {:?}", other),
    }
}

/// PING frames are answered with their echo; answers are not answered.
#[test]
fn ping_is_answered_once() {
    let mut d = Dispatcher::new(server());
    let probe = h2core::frame::ping::Ping::new(h2core::frame::ping::Ping::shutdown_payload());
    let r = d.call(DispatchItem::Item(Frame::Ping(probe)), 0);
    assert_eq!(r.frames.len(), 1);
    match &r.frames[0] {
        Frame::Ping(p) => {
            assert!(p.is_ack());
            assert_eq!(*p.payload(), h2core::frame::ping::Ping::shutdown_payload());
        }
        other => panic!("expected the echo, got {:?}", other),
    }
    let echo = h2core::frame::ping::Ping::pong(h2core::frame::ping::Ping::shutdown_payload());
    let r = d.call(DispatchItem::Item(Frame::Ping(echo)), 0);
    assert!(r.frames.is_empty());
}

/// GOAWAY from the peer is delivered to the control service.
#[test]
fn goaway_reaches_control() {
    let mut d = Dispatcher::new(client());
    let r = d.call(
        DispatchItem::Item(Frame::GoAway(GoAway::new(Reason::NoError).set_last_stream_id(
            StreamId::new(3),
        ))),
        0,
    );
    match r.control {
        Some(ControlMessage::GoneAway(g)) => assert_eq!(g.last_stream_id.id, 3),
        other => panic!("expected the goaway event, got {:?}", other),
    }
}
