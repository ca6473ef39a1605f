use h2core::codec::{decode_frame, encode_frame, EncoderError};
use h2core::frame::{Headers, PseudoHeaders};
use h2core::error::{ProtocolError, StreamError};
use h2core::frame::ping::Ping;
use h2core::frame::{
    Data, Frame, FrameError, GoAway, Head, Kind, Reason, Reset, Settings, StreamId, WindowUpdate,
};
use ntex_bytes::Bytes;

fn round_trip(frame: Frame) -> Frame {
    let bytes = encode_frame(&frame).expect("encodable");
    decode_frame(&bytes).expect("decodable")
}

#[test]
fn data_round_trip() {
    let frame = Frame::Data(Data {
        stream_id: StreamId::new(7),
        payload: Bytes::copy_from_slice(b"hello world"),
        eof: true,
    });
    match round_trip(frame) {
        Frame::Data(d) => {
            assert_eq!(d.stream_id.id, 7);
            assert_eq!(d.payload, Bytes::copy_from_slice(b"hello world"));
            assert!(d.eof);
        }
        other => panic!("wrong frame type: {:?}", other),
    }
}

#[test]
fn reset_round_trip() {
    let frame = Frame::Reset(Reset::new(StreamId::new(3), Reason::Cancel));
    match round_trip(frame) {
        Frame::Reset(r) => {
            assert_eq!(r.stream_id.id, 3);
            assert_eq!(r.reason, Reason::Cancel);
        }
        other => panic!("wrong frame type: {:?}", other),
    }
}

#[test]
fn settings_round_trip() {
    let mut s = Settings::new();
    s.set_initial_window_size(Some(10));
    s.set_max_frame_size(Some(16_384));
    s.set_max_concurrent_streams(Some(100));
    let frame = Frame::Settings(s);
    match round_trip(frame) {
        Frame::Settings(out) => {
            assert_eq!(out, s);
            assert!(!out.ack);
        }
        other => panic!("wrong frame type: {:?}", other),
    }
}

#[test]
fn settings_ack_round_trip() {
    match round_trip(Frame::Settings(Settings::new_ack())) {
        Frame::Settings(out) => assert!(out.ack),
        other => panic!("wrong frame type: {:?}", other),
    }
}

#[test]
fn ping_round_trip() {
    let frame = Frame::Ping(Ping::new(Ping::user_payload()));
    match round_trip(frame) {
        Frame::Ping(p) => {
            assert!(!p.ack);
            assert_eq!(p.payload, Ping::user_payload());
        }
        other => panic!("wrong frame type: {:?}", other),
    }
}

#[test]
fn goaway_round_trip() {
    let frame = Frame::GoAway(
        GoAway::new(Reason::EnhanceYourCalm)
            .set_last_stream_id(StreamId::new(5))
            .set_data("slow down"),
    );
    match round_trip(frame) {
        Frame::GoAway(g) => {
            assert_eq!(g.reason, Reason::EnhanceYourCalm);
            assert_eq!(g.last_stream_id.id, 5);
            assert_eq!(g.data, b"slow down".to_vec());
        }
        other => panic!("wrong frame type: {:?}", other),
    }
}

#[test]
fn window_update_round_trip() {
    let frame = Frame::WindowUpdate(WindowUpdate { stream_id: StreamId::new(9), size_increment: 42 });
    match round_trip(frame) {
        Frame::WindowUpdate(w) => {
            assert_eq!(w.stream_id.id, 9);
            assert_eq!(w.size_increment, 42);
        }
        other => panic!("wrong frame type: {:?}", other),
    }
}

#[test]
fn ping_load_rejects_nonzero_stream_id() {
    let head = Head::new(Kind::Ping, 0, StreamId::new(1));
    let r = Ping::load(head, &[0u8; 8]);
    assert!(matches!(r, Err(FrameError::InvalidStreamId)));
    // the connection answers with GOAWAY(PROTOCOL_ERROR)
    let goaway = ProtocolError::Frame(FrameError::InvalidStreamId).to_goaway();
    assert_eq!(goaway.reason, Reason::ProtocolError);
}

#[test]
fn ping_load_rejects_wrong_payload_length() {
    let head = Head::new(Kind::Ping, 0, StreamId::zero());
    let r = Ping::load(head, &[0u8; 7]);
    assert!(matches!(r, Err(FrameError::BadFrameSize)));
    // the connection answers with GOAWAY(FRAME_SIZE_ERROR)
    let goaway = ProtocolError::Frame(FrameError::BadFrameSize).to_goaway();
    assert_eq!(goaway.reason, Reason::FrameSizeError);
}

#[test]
fn ping_load_accepts_ack_flag() {
    let head = Head::new(Kind::Ping, 0x1, StreamId::zero());
    let payload: [u8; 8] = [1, 2, 3, 4, 5, 6, 7, 8];
    let p = Ping::load(head, &payload).expect("valid ping");
    assert!(p.is_ack());
    assert_eq!(*p.payload(), payload);
    assert_eq!(Ping::pong(payload).into_payload(), payload);
}

#[test]
fn decode_rejects_push_promise() {
    // 9-octet head: len 0, type 0x5 (PUSH_PROMISE), flags 0, stream 1
    let bytes = [0u8, 0, 0, 5, 0, 0, 0, 0, 1];
    assert!(matches!(
        decode_frame(&bytes),
        Err(FrameError::UnexpectedPushPromise)
    ));
}

#[test]
fn decode_rejects_short_buffer() {
    assert!(matches!(decode_frame(&[0u8; 5]), Err(FrameError::BadFrameSize)));
}

#[test]
fn goaway_texts_follow_the_error() {
    let g = ProtocolError::KeepaliveTimeout.to_goaway();
    assert_eq!(g.reason, Reason::NoError);
    assert_eq!(g.data, b"keep-alive timeout".to_vec());

    let g = ProtocolError::MissingPseudo(":method").to_goaway();
    assert_eq!(g.reason, Reason::ProtocolError);
    assert_eq!(g.data, b"Missing pseudo header :method".to_vec());

    let g = ProtocolError::StreamClosed(StreamId::new(5)).to_goaway();
    assert_eq!(g.reason, Reason::StreamClosed);
    assert_eq!(g.data, b"stream 5 is closed".to_vec());

    let g = ProtocolError::ZeroWindowUpdateValue.to_goaway();
    assert_eq!(g.reason, Reason::ProtocolError);
}

#[test]
fn stream_error_reasons() {
    assert_eq!(StreamError::Idle("x").reason(), Reason::ProtocolError);
    assert_eq!(StreamError::Closed.reason(), Reason::StreamClosed);
    assert_eq!(StreamError::WindowOverflowed.reason(), Reason::FlowControlError);
    assert_eq!(StreamError::WindowZeroUpdateValue.reason(), Reason::ProtocolError);
    assert_eq!(StreamError::TrailersWithoutEos.reason(), Reason::ProtocolError);
    assert_eq!(StreamError::InvalidContentLength.reason(), Reason::ProtocolError);
    assert_eq!(StreamError::WrongPayloadLength.reason(), Reason::ProtocolError);
    assert_eq!(StreamError::NonEmptyPayload.reason(), Reason::ProtocolError);
}

#[test]
fn reason_codes_round_trip() {
    let reasons = [
        Reason::NoError,
        Reason::ProtocolError,
        Reason::InternalError,
        Reason::FlowControlError,
        Reason::SettingsTimeout,
        Reason::StreamClosed,
        Reason::FrameSizeError,
        Reason::RefusedStream,
        Reason::Cancel,
        Reason::CompressionError,
        Reason::ConnectError,
        Reason::EnhanceYourCalm,
        Reason::InadequateSecurity,
        Reason::Http11Required,
    ];
    for r in reasons {
        assert_eq!(Reason::from_code(r.code()), r);
    }
    // unknown codes fall back to INTERNAL_ERROR, as RFC 7540 permits
    assert_eq!(Reason::from_code(0xdead), Reason::InternalError);
}

#[test]
fn window_arithmetic_detects_overflow() {
    assert_eq!(h2core::flow::window_inc(0x7fff_fffe, 1), Some(0x7fff_ffff));
    assert_eq!(h2core::flow::window_inc(0x7fff_ffff, 1), None);
    assert_eq!(h2core::flow::window_inc(-5, 10), Some(5));
    assert_eq!(h2core::flow::window_dec(0, 5), Some(-5));
    assert_eq!(h2core::flow::window_dec(i32::MIN, 1), None);
}

#[test]
fn ping_encode_matches_the_codec() {
    let p = Ping::new([1, 2, 3, 4, 5, 6, 7, 8]);
    let mut out: Vec<u8> = Vec::new();
    p.encode(&mut out);
    assert_eq!(out, encode_frame(&Frame::Ping(p)).unwrap());
}

#[test]
fn preface_is_the_fixed_prologue() {
    assert_eq!(h2core::frame::preface(), b"PRI * HTTP/2.0\r\n\r\nSM\r\n\r\n".to_vec());
}

#[test]
fn decode_rejects_unknown_frame_types() {
    // 9-octet head: len 0, unknown type 0x20, flags 0, stream 0
    let bytes = [0u8, 0, 0, 0x20, 0, 0, 0, 0, 0];
    assert!(matches!(decode_frame(&bytes), Err(FrameError::UnsupportedKind)));
}

#[test]
fn header_blocks_are_not_framed_here() {
    let frame = Frame::Headers(Headers {
        stream_id: StreamId::new(1),
        pseudo: PseudoHeaders::empty(),
        headers: ntex_http::HeaderMap::default(),
        eof: false,
    });
    assert!(matches!(encode_frame(&frame), Err(EncoderError::UnencodableFrame)));
}

#[test]
fn oversized_payloads_are_rejected_by_the_encoder() {
    let frame = Frame::Data(Data {
        stream_id: StreamId::new(1),
        payload: Bytes::copy_from_slice(&vec![0u8; 16_777_216]),
        eof: false,
    });
    assert!(matches!(encode_frame(&frame), Err(EncoderError::PayloadTooBig)));
}
