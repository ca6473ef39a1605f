use h2core::connection::{Config, Connection};
use h2core::error::{OperationError, ProtocolError, RecvError, StreamError};
use h2core::frame::{
    Data, Headers, Method, PseudoHeaders, Reason, Reset, Settings, StreamId, WindowUpdate,
};
use ntex_bytes::Bytes;
use ntex_http::header::{HeaderValue, CONTENT_LENGTH};
use ntex_http::HeaderMap;

fn server() -> Connection {
    Connection::new(Config::server(&Settings::new(), 65_535, 10_000, 10))
}

fn client() -> Connection {
    Connection::new(Config::client(&Settings::new(), 65_535, 10_000, 10))
}

fn get_pseudo() -> PseudoHeaders {
    PseudoHeaders {
        method: Some(Method::Get),
        scheme: Some("https".to_string()),
        authority: Some("example.test".to_string()),
        path: Some("/x".to_string()),
        protocol: None,
        status: None,
    }
}

fn headers_frame(id: u32, pseudo: PseudoHeaders, eof: bool) -> Headers {
    Headers { stream_id: StreamId::new(id), pseudo, headers: HeaderMap::default(), eof }
}

fn data_frame(id: u32, payload: &'static [u8], eof: bool) -> Data {
    Data { stream_id: StreamId::new(id), payload: Bytes::from_static(payload), eof }
}

#[test]
fn peer_stream_ids_must_increase() {
    let mut c = server();
    c.recv_headers(headers_frame(5, get_pseudo(), false), 0).expect("opens");
    assert_eq!(c.last_peer_stream_id, 5);
    // opening a lower id afterwards is a connection error: GOAWAY(PROTOCOL_ERROR)
    let r = c.recv_headers(headers_frame(3, get_pseudo(), false), 0);
    match r {
        Err(RecvError::Connection(e)) => {
            assert_eq!(e.to_goaway().reason, Reason::ProtocolError);
        }
        other => panic!("expected a connection error, got {:?}", other),
    }
}

#[test]
fn data_on_idle_stream_is_a_protocol_error() {
    let mut c = server();
    let r = c.recv_data(data_frame(5, b"x", false), 0);
    match r {
        Err(RecvError::Connection(e)) => {
            assert!(matches!(e, ProtocolError::StreamIdle(_)));
            assert_eq!(e.to_goaway().reason, Reason::ProtocolError);
        }
        other => panic!("expected a connection error, got {:?}", other),
    }
}

#[test]
fn trailers_without_end_stream_reset_the_stream() {
    let mut c = server();
    c.recv_headers(headers_frame(1, get_pseudo(), false), 0).expect("opens");
    let r = c.recv_headers(headers_frame(1, PseudoHeaders::empty(), false), 0);
    match r {
        Err(RecvError::Stream(inner)) => {
            let (sid, kind) = inner.into_inner();
            assert_eq!(sid.id, 1);
            assert_eq!(kind, StreamError::TrailersWithoutEos);
            assert_eq!(kind.reason(), Reason::ProtocolError);
        }
        other => panic!("expected a stream error, got {:?}", other),
    }
}

#[test]
fn zero_window_update_is_rejected_at_both_levels() {
    let mut c = server();
    c.recv_headers(headers_frame(1, get_pseudo(), false), 0).expect("opens");
    // stream level: RST_STREAM(PROTOCOL_ERROR)
    let r = c.recv_window_update(WindowUpdate { stream_id: StreamId::new(1), size_increment: 0 });
    match r {
        Err(RecvError::Stream(inner)) => {
            assert_eq!(inner.kind, StreamError::WindowZeroUpdateValue);
            assert_eq!(inner.kind.reason(), Reason::ProtocolError);
        }
        other => panic!("expected a stream error, got {:?}", other),
    }
    // connection level: GOAWAY(PROTOCOL_ERROR)
    let r = c.recv_window_update(WindowUpdate { stream_id: StreamId::zero(), size_increment: 0 });
    match r {
        Err(RecvError::Connection(e)) => {
            assert!(matches!(e, ProtocolError::ZeroWindowUpdateValue));
            assert_eq!(e.to_goaway().reason, Reason::ProtocolError);
        }
        other => panic!("expected a connection error, got {:?}", other),
    }
}

#[test]
fn oversized_initial_window_size_is_a_flow_control_error() {
    let mut c = server();
    let s = Settings { initial_window_size: Some(0x8000_0000), ..Settings::new() };
    let r = c.recv_settings(&s);
    match r {
        Err(e) => assert_eq!(e.to_goaway().reason, Reason::FlowControlError),
        other => panic!("expected a connection error, got {:?}", other),
    }
}

#[test]
fn settings_are_acknowledged_once_and_folding_is_idempotent() {
    let mut c = server();
    let s = Settings { initial_window_size: Some(100), ..Settings::new() };
    let ack = c.recv_settings(&s).expect("accepted").expect("one acknowledgement");
    assert!(ack.ack);
    assert_eq!(c.remote_settings.initial_window_size, Some(100));
    // unchanged parameters: still exactly one acknowledgement, nothing moves
    let before = c.remote_settings;
    let ack2 = c.recv_settings(&s).expect("accepted").expect("one acknowledgement");
    assert!(ack2.ack);
    assert_eq!(c.remote_settings, before);
}

#[test]
fn settings_delta_applies_to_open_streams() {
    let mut c = server();
    c.recv_headers(headers_frame(1, get_pseudo(), false), 0).expect("opens");
    assert_eq!(c.stream_send_flow(1), Some(65_535));
    let s = Settings { initial_window_size: Some(10), ..Settings::new() };
    c.recv_settings(&s).expect("accepted");
    // 65_535 + (10 - 65_535) = 10
    assert_eq!(c.stream_send_flow(1), Some(10));
}

#[test]
fn unexpected_settings_ack_is_rejected() {
    let mut c = server();
    let r = c.recv_settings(&Settings::new_ack());
    assert!(matches!(r, Err(ProtocolError::UnexpectedSettingsAck)));
}

#[test]
fn content_length_accounting_detects_overrun_and_shortfall() {
    let mut c = server();
    let mut hm = HeaderMap::default();
    hm.insert(CONTENT_LENGTH, HeaderValue::from_static("5"));
    let frame = Headers {
        stream_id: StreamId::new(1),
        pseudo: get_pseudo(),
        headers: hm,
        eof: false,
    };
    c.recv_headers(frame, 0).expect("opens");
    // a DATA frame that ends the stream short of the announced length
    let r = c.recv_data(data_frame(1, b"abc", true), 0);
    match r {
        Err(RecvError::Stream(inner)) => {
            assert_eq!(inner.kind, StreamError::WrongPayloadLength);
            assert_eq!(inner.kind.reason(), Reason::ProtocolError);
        }
        other => panic!("expected a stream error, got {:?}", other),
    }
}

#[test]
fn malformed_content_length_is_rejected() {
    let mut c = server();
    let mut hm = HeaderMap::default();
    hm.insert(CONTENT_LENGTH, HeaderValue::from_static("5x"));
    let frame = Headers {
        stream_id: StreamId::new(1),
        pseudo: get_pseudo(),
        headers: hm,
        eof: false,
    };
    let r = c.recv_headers(frame, 0);
    match r {
        Err(RecvError::Stream(inner)) => {
            assert_eq!(inner.kind, StreamError::InvalidContentLength);
        }
        other => panic!("expected a stream error, got {:?}", other),
    }
}

#[test]
fn missing_pseudo_header_is_a_protocol_error() {
    let mut c = server();
    let pseudo = PseudoHeaders { method: None, ..get_pseudo() };
    let r = c.recv_headers(headers_frame(1, pseudo, false), 0);
    match r {
        Err(RecvError::Connection(e)) => {
            assert!(matches!(e, ProtocolError::MissingPseudo(":method")));
        }
        other => panic!("expected a connection error, got {:?}", other),
    }
}

#[test]
fn inbound_data_decrements_both_windows_and_never_goes_negative() {
    let mut c = server();
    c.recv_headers(headers_frame(1, get_pseudo(), false), 0).expect("opens");
    let conn_before = c.recv_flow;
    c.recv_data(data_frame(1, b"hello", false), 0).expect("fits");
    assert_eq!(c.recv_flow, conn_before - 5);
    assert_eq!(c.stream_recv_flow(1), Some(65_535 - 5));
}

#[test]
fn flow_violation_is_a_connection_error_before_processing_completes() {
    // announce a 10-octet stream window, then let the peer overshoot it
    let mut announced = Settings::new();
    announced.set_initial_window_size(Some(4));
    let mut c = Connection::new(Config::server(&announced, 65_535, 10_000, 10));
    c.recv_headers(headers_frame(1, get_pseudo(), false), 0).expect("opens");
    let r = c.recv_data(data_frame(1, b"toolong", false), 0);
    match r {
        Err(RecvError::Connection(ProtocolError::Reason(re))) => {
            assert_eq!(re, Reason::FlowControlError);
        }
        other => panic!("expected FLOW_CONTROL_ERROR, got {:?}", other),
    }
}

#[test]
fn reset_cache_is_bounded() {
    let mut c = client();
    for _ in 0..5 {
        c.send_request(get_pseudo(), HeaderMap::default(), false).expect("opens");
    }
    // reset five streams with a cache bounded at two entries
    let mut tight = Connection::new(Config::client(&Settings::new(), 65_535, 10_000, 2));
    for _ in 0..5 {
        tight.send_request(get_pseudo(), HeaderMap::default(), false).expect("opens");
    }
    for id in [1u32, 3, 5, 7, 9] {
        tight.rst_stream(id, Reason::Cancel, 0).expect("was live");
        assert!(tight.reset_cache.len() <= 2);
    }
}

#[test]
fn stream_id_space_exhaustion_is_reported() {
    let mut c = client();
    c.next_stream_id = 0x7fff_ffff + 2;
    let r = c.send_request(get_pseudo(), HeaderMap::default(), false);
    assert!(matches!(r, Err(OperationError::OverflowedStreamId)));
}

#[test]
fn released_capacity_comes_back_as_nonzero_window_updates() {
    let mut c = server();
    c.recv_headers(headers_frame(1, get_pseudo(), false), 0).expect("opens");
    let payload: Vec<u8> = vec![0u8; 40_000];
    let frame = Data {
        stream_id: StreamId::new(1),
        payload: Bytes::copy_from_slice(&payload),
        eof: false,
    };
    c.recv_data(frame, 0).expect("fits");
    // the stream window fell below half its 65_535 target
    let ups = c.release_capacity(1, 40_000).expect("legal release");
    assert_eq!(ups.len(), 2);
    assert_eq!(ups[0].stream_id.id, 1);
    assert_eq!(ups[0].size_increment, 40_000);
    assert_eq!(ups[1].stream_id.id, 0);
    assert_eq!(ups[1].size_increment, 40_000);
    for u in &ups {
        assert!(u.size_increment > 0);
    }
    // releasing more than the window space can hold back is rejected
    let r = c.release_capacity(1, 0x7fff_ffff);
    assert!(matches!(r, Err(OperationError::Stream(StreamError::WindowOverflowed))));
}

#[test]
fn terminal_event_is_emitted_at_most_once() {
    let mut c = server();
    c.recv_headers(headers_frame(1, get_pseudo(), false), 0).expect("opens");
    // the stream ends with DATA carrying END_STREAM: one Eof event
    let m = c.recv_data(data_frame(1, b"x", true), 0).expect("fits").expect("a message");
    assert!(matches!(m.kind, h2core::message::MessageKind::Eof(_)));
    // a later RST_STREAM for the same stream yields no second terminal event
    let r = c.recv_rst_stream(Reset::new(StreamId::new(1), Reason::Cancel), 0).expect("absorbed");
    assert!(r.is_none());
}

#[test]
fn remote_reset_surfaces_one_eof_event() {
    let mut c = server();
    c.recv_headers(headers_frame(1, get_pseudo(), false), 0).expect("opens");
    let m = c
        .recv_rst_stream(Reset::new(StreamId::new(1), Reason::Cancel), 0)
        .expect("handled")
        .expect("one terminal event");
    assert_eq!(m.stream.id, 1);
    match m.kind {
        h2core::message::MessageKind::Eof(h2core::message::StreamEof::Reset(re)) => {
            assert_eq!(re, Reason::Cancel)
        }
        other => panic!("expected Eof(Reset), got {:?}", other),
    }
}

#[test]
fn first_frame_must_be_settings() {
    let mut c = server();
    assert!(c.first_frame_settings(true).is_ok());
    let mut c2 = server();
    match c2.first_frame_settings(false) {
        Err(ProtocolError::Reason(re)) => assert_eq!(re, Reason::ProtocolError),
        other => panic!("expected PROTOCOL_ERROR, got {:?}", other),
    }
    assert!(c2.failed);
}

#[test]
fn head_responses_must_have_empty_payloads() {
    let mut cli = client();
    let head_request = PseudoHeaders { method: Some(Method::Head), ..get_pseudo() };
    let (sid, _f) = cli.send_request(head_request, HeaderMap::default(), true).expect("opens");
    assert_eq!(sid.id, 1);
    let resp = Headers {
        stream_id: StreamId::new(1),
        pseudo: PseudoHeaders { status: Some(200), ..PseudoHeaders::empty() },
        headers: HeaderMap::default(),
        eof: false,
    };
    cli.recv_headers(resp, 0).expect("accepted");
    let r = cli.recv_data(data_frame(1, b"body", false), 0);
    match r {
        Err(RecvError::Stream(inner)) => {
            assert_eq!(inner.kind, StreamError::NonEmptyPayload);
        }
        other => panic!("expected NonEmptyPayload, got {:?}", other),
    }
}

#[test]
fn empty_payload_with_end_stream_still_goes_out() {
    let mut srv = server();
    srv.recv_headers(headers_frame(1, get_pseudo(), true), 0).expect("opens");
    let out = srv.send_data(1, Bytes::new(), true, 0).expect("stream can send");
    assert_eq!(out.frames.len(), 1);
    assert_eq!(out.frames[0].payload.len(), 0);
    assert!(out.frames[0].eof);
    assert!(out.blocked.is_none());
}

#[test]
fn enable_push_must_be_zero() {
    let mut c = server();
    let s = Settings { enable_push: Some(1), ..Settings::new() };
    match c.recv_settings(&s) {
        Err(e) => assert_eq!(e.to_goaway().reason, Reason::ProtocolError),
        other => panic!("expected a connection error, got {:?}", other),
    }
    let s = Settings { enable_push: Some(0), ..Settings::new() };
    assert!(c.recv_settings(&s).is_ok());
}

#[test]
fn peer_stream_cap_refuses_the_excess_stream() {
    let mut announced = Settings::new();
    announced.set_max_concurrent_streams(Some(2));
    let mut c = Connection::new(Config::server(&announced, 65_535, 10_000, 10));
    c.recv_headers(headers_frame(1, get_pseudo(), false), 0).expect("first opens");
    c.recv_headers(headers_frame(3, get_pseudo(), false), 0).expect("second opens");
    match c.recv_headers(headers_frame(5, get_pseudo(), false), 0) {
        Err(RecvError::Stream(inner)) => {
            assert_eq!(inner.kind, StreamError::Refused);
            assert_eq!(inner.kind.reason(), Reason::RefusedStream);
        }
        other => panic!("expected the refused stream error, got {:?}", other),
    }
    // the id was still observed: reopening anything at or below it fails
    assert_eq!(c.last_peer_stream_id, 5);
}

#[test]
fn sending_on_a_never_opened_stream_is_idle() {
    let mut c = client();
    match c.send_data(9, Bytes::from_static(b"x"), false, 0) {
        Err(OperationError::Idle) => {}
        other => panic!("expected the idle error, got {:?}", other),
    }
    match c.send_headers(9, get_pseudo(), HeaderMap::default(), false, 0) {
        Err(OperationError::Idle) => {}
        other => panic!("expected the idle error, got {:?}", other),
    }
    // a stream that existed once is closed, not idle
    c.send_request(get_pseudo(), HeaderMap::default(), false).expect("opens stream 1");
    c.rst_stream(1, Reason::Cancel, 0).expect("was live");
    match c.send_data(1, Bytes::from_static(b"x"), false, 0) {
        Err(OperationError::Closed(None)) => {}
        other => panic!("expected the closed error, got {:?}", other),
    }
}
