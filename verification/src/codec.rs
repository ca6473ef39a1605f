//! Byte-level frame layer: RFC 7540 framing for the frame types the engine
//! itself produces and consumes. Header blocks (HEADERS, CONTINUATION) are
//! compressed by the codec outside the engine and are not framed here.

use vstd::prelude::*;
use crate::buffer::{bytes_from_slice, bytes_len, bytes_to_vec, bytes_view};
use crate::frame::ping::Ping;
use crate::frame::{
    Data, Frame, FrameError, GoAway, Kind, Priority, Reason, Reset, Settings, StreamId,
    WindowUpdate, MAX_STREAM_ID, MAX_WINDOW_SIZE,
};

verus! {

/// Errors of the outbound byte-level frame layer.
#[derive(Clone, Copy, PartialEq, Eq, Structural, Debug)]
pub enum EncoderError {
    /// The frame's payload exceeds what a 24-bit length can carry.
    PayloadTooBig,
    /// The frame's type is not encodable by this byte-level layer
    /// (header blocks are compressed by the codec outside the engine).
    UnencodableFrame,
}

/// Largest payload a frame's 24-bit length field can declare.
pub const MAX_WIRE_PAYLOAD: u32 = 16_777_215;

#[verifier::opaque]
pub open spec fn u16_be(v: u16) -> Seq<u8> {
    seq![((v / 256) % 256) as u8, (v % 256) as u8]
}

#[verifier::opaque]
pub open spec fn u24_be(v: u32) -> Seq<u8> {
    seq![((v / 65536) % 256) as u8, ((v / 256) % 256) as u8, (v % 256) as u8]
}

#[verifier::opaque]
pub open spec fn u32_be(v: u32) -> Seq<u8> {
    seq![
        ((v / 16777216) % 256) as u8,
        ((v / 65536) % 256) as u8,
        ((v / 256) % 256) as u8,
        (v % 256) as u8,
    ]
}

pub open spec fn be_u16(b0: u8, b1: u8) -> int {
    b0 * 256 + b1
}

pub open spec fn be_u24(b0: u8, b1: u8, b2: u8) -> int {
    b0 * 65536 + b1 * 256 + b2
}

pub open spec fn be_u32(b0: u8, b1: u8, b2: u8, b3: u8) -> int {
    b0 * 16777216 + b1 * 65536 + b2 * 256 + b3
}

pub proof fn lemma_u16_round_trip(v: u16)
    ensures
        u16_be(v).len() == 2,
        be_u16(u16_be(v)[0], u16_be(v)[1]) == v,
{
    reveal(u16_be);
}

pub proof fn lemma_u24_round_trip(v: u32)
    requires
        v < 0x1000000,
    ensures
        u24_be(v).len() == 3,
        be_u24(u24_be(v)[0], u24_be(v)[1], u24_be(v)[2]) == v,
{
    reveal(u24_be);
}

pub proof fn lemma_u32_round_trip(v: u32)
    ensures
        u32_be(v).len() == 4,
        be_u32(u32_be(v)[0], u32_be(v)[1], u32_be(v)[2], u32_be(v)[3]) == v,
{
    reveal(u32_be);
}

/// The 9-octet header: 24-bit payload length, type code, flags, 31-bit
/// stream id with the reserved bit zero.
pub open spec fn spec_head_bytes(len: u32, kind: Kind, flag: u8, id: u32) -> Seq<u8> {
    u24_be(len) + seq![kind.spec_code(), flag] + u32_be(id)
}

/// The wire entries a SETTINGS frame carries, one 6-octet entry per
/// parameter present, in identifier order.
pub open spec fn spec_settings_payload(s: Settings) -> Seq<u8> {
    spec_setting_entry(1, s.header_table_size) + spec_setting_entry(2, s.enable_push)
        + spec_setting_entry(3, s.max_concurrent_streams) + spec_setting_entry(
        4,
        s.initial_window_size,
    ) + spec_setting_entry(5, s.max_frame_size) + spec_setting_entry(
        6,
        s.max_header_list_size,
    ) + spec_setting_entry(8, s.enable_connect_protocol)
}

pub open spec fn spec_setting_entry(id: u16, v: Option<u32>) -> Seq<u8> {
    match v {
        Some(value) => u16_be(id) + u32_be(value),
        None => Seq::<u8>::empty(),
    }
}

/// A frame type this byte-level layer can put on the wire.
pub open spec fn spec_encodable(f: Frame) -> bool {
    match f {
        Frame::Data(_) => true,
        Frame::Reset(_) => true,
        Frame::Settings(_) => true,
        Frame::Ping(_) => true,
        Frame::GoAway(_) => true,
        Frame::WindowUpdate(_) => true,
        Frame::Headers(_) => false,
        Frame::Priority(_) => false,
    }
}

/// The frame's fields fit the wire: ids are 31-bit, payloads fit the
/// 24-bit length, settings values are legal, window increments are 31-bit.
pub open spec fn spec_wire_wf(f: Frame) -> bool {
    match f {
        Frame::Data(d) => d.stream_id.wf() && d.stream_id.id != 0 && bytes_view(d.payload).len()
            <= MAX_WIRE_PAYLOAD,
        Frame::Reset(r) => r.stream_id.wf() && r.stream_id.id != 0,
        Frame::Settings(s) => s.wf(),
        Frame::Ping(_) => true,
        Frame::GoAway(g) => g.last_stream_id.wf() && g.data@.len() + 8 <= MAX_WIRE_PAYLOAD,
        Frame::WindowUpdate(w) => w.stream_id.wf() && w.size_increment <= MAX_WINDOW_SIZE,
        _ => false,
    }
}

/// The octets of one typed frame on the wire.
pub open spec fn spec_frame_bytes(f: Frame) -> Seq<u8> {
    match f {
        Frame::Data(d) => spec_head_bytes(
            bytes_view(d.payload).len() as u32,
            Kind::Data,
            if d.eof {
                1
            } else {
                0
            },
            d.stream_id.id,
        ) + bytes_view(d.payload),
        Frame::Reset(r) => spec_head_bytes(4, Kind::Reset, 0, r.stream_id.id) + u32_be(
            r.reason.spec_code(),
        ),
        Frame::Settings(s) => if s.ack {
            spec_head_bytes(0, Kind::Settings, 1, 0)
        } else {
            spec_head_bytes(
                spec_settings_payload(s).len() as u32,
                Kind::Settings,
                0,
                0,
            ) + spec_settings_payload(s)
        },
        Frame::Ping(p) => spec_head_bytes(
            8,
            Kind::Ping,
            if p.ack {
                1
            } else {
                0
            },
            0,
        ) + p.payload@,
        Frame::GoAway(g) => spec_head_bytes(
            (8 + g.data@.len()) as u32,
            Kind::GoAway,
            0,
            0,
        ) + u32_be(g.last_stream_id.id) + u32_be(g.reason.spec_code()) + g.data@,
        Frame::WindowUpdate(w) => spec_head_bytes(4, Kind::WindowUpdate, 0, w.stream_id.id)
            + u32_be(w.size_increment),
        _ => Seq::<u8>::empty(),
    }
}

/// A parsed frame as the wire shows it, with payloads as plain octet
/// sequences; used to state what decoding returns.
pub enum WireFrame {
    Data { stream_id: u32, payload: Seq<u8>, eof: bool },
    Priority { stream_id: u32 },
    Reset { stream_id: u32, reason: Reason },
    Settings(Settings),
    Ping { ack: bool, payload: Seq<u8> },
    GoAway { last_stream_id: u32, reason: Reason, data: Seq<u8> },
    WindowUpdate { stream_id: u32, size_increment: u32 },
}

/// The wire view of a typed frame.
pub open spec fn spec_frame_wire(f: Frame) -> WireFrame {
    match f {
        Frame::Data(d) => WireFrame::Data {
            stream_id: d.stream_id.id,
            payload: bytes_view(d.payload),
            eof: d.eof,
        },
        Frame::Priority(p) => WireFrame::Priority { stream_id: p.stream_id.id },
        Frame::Reset(r) => WireFrame::Reset { stream_id: r.stream_id.id, reason: r.reason },
        Frame::Settings(s) => WireFrame::Settings(s),
        Frame::Ping(p) => WireFrame::Ping { ack: p.ack, payload: p.payload@ },
        Frame::GoAway(g) => WireFrame::GoAway {
            last_stream_id: g.last_stream_id.id,
            reason: g.reason,
            data: g.data@,
        },
        Frame::WindowUpdate(w) => WireFrame::WindowUpdate {
            stream_id: w.stream_id.id,
            size_increment: w.size_increment,
        },
        Frame::Headers(h) => WireFrame::Priority { stream_id: h.stream_id.id },
    }
}

/// Applies one SETTINGS entry; unknown identifiers are ignored.
pub open spec fn spec_apply_setting(id: int, v: u32, acc: Settings) -> Settings {
    if id == 1 {
        Settings { header_table_size: Some(v), ..acc }
    } else if id == 2 {
        Settings { enable_push: Some(v), ..acc }
    } else if id == 3 {
        Settings { max_concurrent_streams: Some(v), ..acc }
    } else if id == 4 {
        Settings { initial_window_size: Some(v), ..acc }
    } else if id == 5 {
        Settings { max_frame_size: Some(v), ..acc }
    } else if id == 6 {
        Settings { max_header_list_size: Some(v), ..acc }
    } else if id == 8 {
        Settings { enable_connect_protocol: Some(v), ..acc }
    } else {
        acc
    }
}

/// Folds a SETTINGS payload, 6 octets at a time; the last value for an
/// identifier wins.
pub open spec fn spec_apply_settings(p: Seq<u8>, acc: Settings) -> Settings
    decreases p.len(),
{
    if p.len() < 6 {
        acc
    } else {
        spec_apply_settings(
            p.skip(6),
            spec_apply_setting(
                be_u16(p[0], p[1]),
                be_u32(p[2], p[3], p[4], p[5]) as u32,
                acc,
            ),
        )
    }
}

/// What decoding a buffer yields: the parsed frame, or why the bytes are
/// rejected.
pub open spec fn spec_parse_frame(s: Seq<u8>) -> Result<WireFrame, FrameError> {
    if s.len() < 9 {
        Err(FrameError::BadFrameSize)
    } else {
        let len = be_u24(s[0], s[1], s[2]);
        let flag = s[4];
        let id = (be_u32(s[5], s[6], s[7], s[8]) % 0x80000000) as u32;
        if s.len() != 9 + len {
            Err(FrameError::BadFrameSize)
        } else {
            match Kind::spec_from_code(s[3]) {
                None => Err(FrameError::UnsupportedKind),
                Some(kind) => match kind {
                    Kind::Data => if id == 0 {
                        Err(FrameError::InvalidStreamId)
                    } else {
                        Ok(WireFrame::Data { stream_id: id, payload: s.skip(9), eof: flag & 1
                            == 1 })
                    },
                    Kind::Headers => Err(FrameError::UnsupportedKind),
                    Kind::Continuation => Err(FrameError::UnsupportedKind),
                    Kind::PushPromise => Err(FrameError::UnexpectedPushPromise),
                    Kind::Priority => if id == 0 {
                        Err(FrameError::InvalidStreamId)
                    } else if len != 5 {
                        Err(FrameError::BadFrameSize)
                    } else {
                        Ok(WireFrame::Priority { stream_id: id })
                    },
                    Kind::Reset => if id == 0 {
                        Err(FrameError::InvalidStreamId)
                    } else if len != 4 {
                        Err(FrameError::BadFrameSize)
                    } else {
                        Ok(WireFrame::Reset {
                            stream_id: id,
                            reason: Reason::spec_from_code(
                                be_u32(s[9], s[10], s[11], s[12]) as u32,
                            ),
                        })
                    },
                    Kind::Settings => if id != 0 {
                        Err(FrameError::InvalidStreamId)
                    } else if flag & 1 == 1 {
                        if len != 0 {
                            Err(FrameError::BadFrameSize)
                        } else {
                            Ok(WireFrame::Settings(Settings::ack_frame()))
                        }
                    } else if len % 6 != 0 {
                        Err(FrameError::BadFrameSize)
                    } else {
                        Ok(WireFrame::Settings(
                            spec_apply_settings(s.skip(9), Settings::spec_default()),
                        ))
                    },
                    Kind::Ping => if id != 0 {
                        Err(FrameError::InvalidStreamId)
                    } else if len != 8 {
                        Err(FrameError::BadFrameSize)
                    } else {
                        Ok(WireFrame::Ping { ack: flag & 1 == 1, payload: s.skip(9) })
                    },
                    Kind::GoAway => if id != 0 {
                        Err(FrameError::InvalidStreamId)
                    } else if len < 8 {
                        Err(FrameError::BadFrameSize)
                    } else {
                        Ok(WireFrame::GoAway {
                            last_stream_id: (be_u32(s[9], s[10], s[11], s[12])
                                % 0x80000000) as u32,
                            reason: Reason::spec_from_code(
                                be_u32(s[13], s[14], s[15], s[16]) as u32,
                            ),
                            data: s.skip(17),
                        })
                    },
                    Kind::WindowUpdate => if len != 4 {
                        Err(FrameError::BadFrameSize)
                    } else {
                        Ok(WireFrame::WindowUpdate {
                            stream_id: id,
                            size_increment: (be_u32(s[9], s[10], s[11], s[12])
                                % 0x80000000) as u32,
                        })
                    },
                },
            }
        }
    }
}

fn push_u16_be(dst: &mut Vec<u8>, v: u16)
    ensures
        final(dst)@ == old(dst)@ + u16_be(v),
{
    dst.push(((v / 256) % 256) as u8);
    dst.push((v % 256) as u8);
    proof {
        reveal(u16_be);
        assert(dst@ =~= old(dst)@ + u16_be(v));
    }
}

fn push_u24_be(dst: &mut Vec<u8>, v: u32)
    ensures
        final(dst)@ == old(dst)@ + u24_be(v),
{
    dst.push(((v / 65536) % 256) as u8);
    dst.push(((v / 256) % 256) as u8);
    dst.push((v % 256) as u8);
    proof {
        reveal(u24_be);
        assert(dst@ =~= old(dst)@ + u24_be(v));
    }
}

fn push_u32_be(dst: &mut Vec<u8>, v: u32)
    ensures
        final(dst)@ == old(dst)@ + u32_be(v),
{
    dst.push(((v / 16777216) % 256) as u8);
    dst.push(((v / 65536) % 256) as u8);
    dst.push(((v / 256) % 256) as u8);
    dst.push((v % 256) as u8);
    proof {
        reveal(u32_be);
        assert(dst@ =~= old(dst)@ + u32_be(v));
    }
}

fn push_head(dst: &mut Vec<u8>, len: u32, kind: Kind, flag: u8, id: u32)
    ensures
        final(dst)@ == old(dst)@ + spec_head_bytes(len, kind, flag, id),
{
    push_u24_be(dst, len);
    dst.push(kind.code());
    dst.push(flag);
    push_u32_be(dst, id);
    proof {
        assert(dst@ =~= old(dst)@ + spec_head_bytes(len, kind, flag, id));
    }
}

fn append_slice(dst: &mut Vec<u8>, src: &[u8])
    ensures
        final(dst)@ == old(dst)@ + src@,
{
    let mut i: usize = 0;
    while i < src.len()
        invariant
            0 <= i <= src@.len(),
            dst@ == old(dst)@ + src@.take(i as int),
        decreases src@.len() - i,
    {
        dst.push(src[i]);
        proof {
            assert(dst@ =~= old(dst)@ + src@.take(i + 1));
        }
        i = i + 1;
    }
    proof {
        assert(src@.take(src@.len() as int) =~= src@);
    }
}

fn push_setting(dst: &mut Vec<u8>, id: u16, v: &Option<u32>)
    ensures
        final(dst)@ == old(dst)@ + spec_setting_entry(id, *v),
{
    match v {
        Some(value) => {
            push_u16_be(dst, id);
            push_u32_be(dst, *value);
            proof {
                assert(dst@ =~= old(dst)@ + spec_setting_entry(id, *v));
            }
        },
        None => {
            proof {
                assert(dst@ =~= old(dst)@ + spec_setting_entry(id, *v));
            }
        },
    }
}

/// The payload octets a parameter-bearing SETTINGS frame carries.
fn settings_payload(s: &Settings) -> (r: Vec<u8>)
    ensures
        r@ == spec_settings_payload(*s),
{
    let mut p: Vec<u8> = Vec::new();
    push_setting(&mut p, 1, &s.header_table_size);
    push_setting(&mut p, 2, &s.enable_push);
    push_setting(&mut p, 3, &s.max_concurrent_streams);
    push_setting(&mut p, 4, &s.initial_window_size);
    push_setting(&mut p, 5, &s.max_frame_size);
    push_setting(&mut p, 6, &s.max_header_list_size);
    push_setting(&mut p, 8, &s.enable_connect_protocol);
    proof {
        assert(p@ =~= spec_settings_payload(*s));
    }
    p
}

/// One wire entry is 6 octets when the parameter is present, none when it
/// is absent.
pub proof fn lemma_setting_entry_len(id: u16, v: Option<u32>)
    ensures
        spec_setting_entry(id, v).len() == (if v is Some {
            6int
        } else {
            0int
        }),
{
    reveal(u16_be);
    reveal(u32_be);
}

/// Each SETTINGS payload is a whole number of 6-octet entries and at most
/// seven of them.
pub proof fn lemma_settings_payload_len(s: Settings)
    ensures
        spec_settings_payload(s).len() % 6 == 0,
        spec_settings_payload(s).len() <= 42,
{
    lemma_setting_entry_len(1, s.header_table_size);
    lemma_setting_entry_len(2, s.enable_push);
    lemma_setting_entry_len(3, s.max_concurrent_streams);
    lemma_setting_entry_len(4, s.initial_window_size);
    lemma_setting_entry_len(5, s.max_frame_size);
    lemma_setting_entry_len(6, s.max_header_list_size);
    lemma_setting_entry_len(8, s.enable_connect_protocol);
}

/// Puts one typed frame on the wire. Header blocks are not framed here;
/// a payload that cannot fit the 24-bit length field is rejected.
pub fn encode_frame(f: &Frame) -> (r: Result<Vec<u8>, EncoderError>)
    ensures
        !spec_encodable(*f) ==> r == Err::<Vec<u8>, EncoderError>(EncoderError::UnencodableFrame),
        spec_encodable(*f) && !spec_payload_fits(*f) ==> r == Err::<Vec<u8>, EncoderError>(
            EncoderError::PayloadTooBig,
        ),
        spec_encodable(*f) && spec_payload_fits(*f) ==> (r matches Ok(v) && v@
            == spec_frame_bytes(*f)),
{
    match f {
        Frame::Data(d) => {
            let len = bytes_len(&d.payload);
            if len > MAX_WIRE_PAYLOAD as usize {
                return Err(EncoderError::PayloadTooBig);
            }
            let mut out: Vec<u8> = Vec::new();
            push_head(
                &mut out,
                len as u32,
                Kind::Data,
                if d.eof {
                    1
                } else {
                    0
                },
                d.stream_id.id,
            );
            let body = bytes_to_vec(&d.payload);
            append_slice(&mut out, body.as_slice());
            proof {
                assert(out@ =~= spec_frame_bytes(*f));
            }
            Ok(out)
        },
        Frame::Reset(rst) => {
            let mut out: Vec<u8> = Vec::new();
            push_head(&mut out, 4, Kind::Reset, 0, rst.stream_id.id);
            push_u32_be(&mut out, rst.reason.code());
            proof {
                assert(out@ =~= spec_frame_bytes(*f));
            }
            Ok(out)
        },
        Frame::Settings(s) => {
            let mut out: Vec<u8> = Vec::new();
            if s.ack {
                push_head(&mut out, 0, Kind::Settings, 1, 0);
            } else {
                let p = settings_payload(s);
                proof {
                    lemma_settings_payload_len(*s);
                }
                push_head(&mut out, p.len() as u32, Kind::Settings, 0, 0);
                append_slice(&mut out, p.as_slice());
            }
            proof {
                assert(out@ =~= spec_frame_bytes(*f));
            }
            Ok(out)
        },
        Frame::Ping(p) => {
            let mut out: Vec<u8> = Vec::new();
            push_head(
                &mut out,
                8,
                Kind::Ping,
                if p.ack {
                    1
                } else {
                    0
                },
                0,
            );
            append_slice(&mut out, p.payload.as_slice());
            proof {
                assert(out@ =~= spec_frame_bytes(*f));
            }
            Ok(out)
        },
        Frame::GoAway(g) => {
            if g.data.len() > (MAX_WIRE_PAYLOAD - 8) as usize {
                return Err(EncoderError::PayloadTooBig);
            }
            let mut out: Vec<u8> = Vec::new();
            push_head(&mut out, 8 + g.data.len() as u32, Kind::GoAway, 0, 0);
            push_u32_be(&mut out, g.last_stream_id.id);
            push_u32_be(&mut out, g.reason.code());
            append_slice(&mut out, g.data.as_slice());
            proof {
                assert(out@ =~= spec_frame_bytes(*f));
            }
            Ok(out)
        },
        Frame::WindowUpdate(w) => {
            let mut out: Vec<u8> = Vec::new();
            push_head(&mut out, 4, Kind::WindowUpdate, 0, w.stream_id.id);
            push_u32_be(&mut out, w.size_increment);
            proof {
                assert(out@ =~= spec_frame_bytes(*f));
            }
            Ok(out)
        },
        Frame::Headers(_) => Err(EncoderError::UnencodableFrame),
        Frame::Priority(_) => Err(EncoderError::UnencodableFrame),
    }
}

/// The frame's payload fits the 24-bit length field.
pub open spec fn spec_payload_fits(f: Frame) -> bool {
    match f {
        Frame::Data(d) => bytes_view(d.payload).len() <= MAX_WIRE_PAYLOAD,
        Frame::GoAway(g) => g.data@.len() + 8 <= MAX_WIRE_PAYLOAD,
        _ => true,
    }
}

/// Folding a payload that starts with whole entries works entry group by
/// entry group.
pub proof fn lemma_apply_append(a: Seq<u8>, b: Seq<u8>, acc: Settings)
    requires
        a.len() % 6 == 0,
    ensures
        spec_apply_settings(a + b, acc) == spec_apply_settings(b, spec_apply_settings(a, acc)),
    decreases a.len(),
{
    if a.len() == 0 {
        assert(a + b =~= b);
    } else {
        let ab = a + b;
        assert(ab[0] == a[0] && ab[1] == a[1] && ab[2] == a[2] && ab[3] == a[3] && ab[4] == a[4]
            && ab[5] == a[5]);
        assert(ab.skip(6) =~= a.skip(6) + b);
        lemma_apply_append(
            a.skip(6),
            b,
            spec_apply_setting(be_u16(a[0], a[1]), be_u32(a[2], a[3], a[4], a[5]) as u32, acc),
        );
    }
}

/// Folding one wire entry followed by the rest applies the entry first.
pub proof fn lemma_apply_entry_prefix(id: u16, v: Option<u32>, rest: Seq<u8>, acc: Settings)
    ensures
        spec_apply_settings(spec_setting_entry(id, v) + rest, acc) == spec_apply_settings(
            rest,
            match v {
                Some(x) => spec_apply_setting(id as int, x, acc),
                None => acc,
            },
        ),
{
    match v {
        None => {
            assert(spec_setting_entry(id, v) + rest =~= rest);
        },
        Some(x) => {
            let e = spec_setting_entry(id, v);
            reveal(u16_be);
            reveal(u32_be);
            assert(e.len() == 6);
            let s = e + rest;
            assert(s[0] == e[0] && s[1] == e[1] && s[2] == e[2] && s[3] == e[3] && s[4] == e[4]
                && s[5] == e[5]);
            lemma_u16_round_trip(id);
            lemma_u32_round_trip(x);
            assert(be_u16(s[0], s[1]) == id);
            assert(be_u32(s[2], s[3], s[4], s[5]) == x);
            assert(s.skip(6) =~= rest);
        },
    }
}

/// Decoding the wire entries of a parameter-bearing SETTINGS yields the
/// parameters back.
#[verifier::rlimit(100)]
pub proof fn lemma_settings_round_trip(s: Settings)
    requires
        !s.ack,
    ensures
        spec_apply_settings(spec_settings_payload(s), Settings::spec_default()) == s,
{
    let e1 = spec_setting_entry(1, s.header_table_size);
    let e2 = spec_setting_entry(2, s.enable_push);
    let e3 = spec_setting_entry(3, s.max_concurrent_streams);
    let e4 = spec_setting_entry(4, s.initial_window_size);
    let e5 = spec_setting_entry(5, s.max_frame_size);
    let e6 = spec_setting_entry(6, s.max_header_list_size);
    let e7 = spec_setting_entry(8, s.enable_connect_protocol);
    lemma_setting_entry_len(1, s.header_table_size);
    lemma_setting_entry_len(2, s.enable_push);
    lemma_setting_entry_len(3, s.max_concurrent_streams);
    lemma_setting_entry_len(4, s.initial_window_size);
    lemma_setting_entry_len(5, s.max_frame_size);
    lemma_setting_entry_len(6, s.max_header_list_size);
    lemma_setting_entry_len(8, s.enable_connect_protocol);
    let p = spec_settings_payload(s);
    assert(p =~= e1 + (e2 + (e3 + (e4 + (e5 + (e6 + e7))))));
    let d0 = Settings::spec_default();
    let d1 = match s.header_table_size {
        Some(x) => spec_apply_setting(1, x, d0),
        None => d0,
    };
    let d2 = match s.enable_push {
        Some(x) => spec_apply_setting(2, x, d1),
        None => d1,
    };
    let d3 = match s.max_concurrent_streams {
        Some(x) => spec_apply_setting(3, x, d2),
        None => d2,
    };
    let d4 = match s.initial_window_size {
        Some(x) => spec_apply_setting(4, x, d3),
        None => d3,
    };
    let d5 = match s.max_frame_size {
        Some(x) => spec_apply_setting(5, x, d4),
        None => d4,
    };
    let d6 = match s.max_header_list_size {
        Some(x) => spec_apply_setting(6, x, d5),
        None => d5,
    };
    let d7 = match s.enable_connect_protocol {
        Some(x) => spec_apply_setting(8, x, d6),
        None => d6,
    };
    lemma_apply_entry_prefix(1, s.header_table_size, e2 + (e3 + (e4 + (e5 + (e6 + e7)))), d0);
    lemma_apply_entry_prefix(2, s.enable_push, e3 + (e4 + (e5 + (e6 + e7))), d1);
    lemma_apply_entry_prefix(3, s.max_concurrent_streams, e4 + (e5 + (e6 + e7)), d2);
    lemma_apply_entry_prefix(4, s.initial_window_size, e5 + (e6 + e7), d3);
    lemma_apply_entry_prefix(5, s.max_frame_size, e6 + e7, d4);
    lemma_apply_entry_prefix(6, s.max_header_list_size, e7, d5);
    assert(e7 =~= e7 + Seq::<u8>::empty());
    lemma_apply_entry_prefix(8, s.enable_connect_protocol, Seq::<u8>::empty(), d6);
    assert(spec_apply_settings(Seq::<u8>::empty(), d7) == d7);
    assert(d7 == s);
}

/// Encoding then decoding any frame the engine produces yields the very
/// frame back: the wire view survives the round trip bit for bit, for the
/// frame types this byte-level layer covers.
#[verifier::rlimit(100)]
pub proof fn lemma_frame_round_trip(f: Frame)
    requires
        spec_encodable(f),
        spec_wire_wf(f),
    ensures
        spec_parse_frame(spec_frame_bytes(f)) == Ok::<WireFrame, FrameError>(
            spec_frame_wire(f),
        ),
{
    let s = spec_frame_bytes(f);
    assert(1u8 & 1 == 1) by (bit_vector);
    assert(0u8 & 1 == 0) by (bit_vector);
    match f {
        Frame::Data(d) => {
            let len = bytes_view(d.payload).len() as u32;
            let flag: u8 = if d.eof {
                1
            } else {
                0
            };
            lemma_head_parse(s, len, Kind::Data, flag, d.stream_id.id, bytes_view(d.payload));
            assert(s.skip(9) =~= bytes_view(d.payload));
        },
        Frame::Reset(r) => {
            lemma_u32_round_trip(r.reason.spec_code());
            lemma_head_parse(s, 4, Kind::Reset, 0, r.stream_id.id, u32_be(r.reason.spec_code()));
            assert(s[9] == u32_be(r.reason.spec_code())[0] && s[10] == u32_be(
                r.reason.spec_code(),
            )[1] && s[11] == u32_be(r.reason.spec_code())[2] && s[12] == u32_be(
                r.reason.spec_code(),
            )[3]);
            crate::frame::lemma_reason_code_round_trip(r.reason);
        },
        Frame::Settings(st) => {
            if st.ack {
                lemma_head_parse(s, 0, Kind::Settings, 1, 0, Seq::<u8>::empty());
            } else {
                lemma_settings_payload_len(*&st);
                let p = spec_settings_payload(st);
                lemma_head_parse(s, p.len() as u32, Kind::Settings, 0, 0, p);
                assert(s.skip(9) =~= p);
                lemma_settings_round_trip(st);
            }
        },
        Frame::Ping(p) => {
            let flag: u8 = if p.ack {
                1
            } else {
                0
            };
            lemma_head_parse(s, 8, Kind::Ping, flag, 0, p.payload@);
            assert(s.skip(9) =~= p.payload@);
        },
        Frame::GoAway(g) => {
            let body = u32_be(g.last_stream_id.id) + u32_be(g.reason.spec_code()) + g.data@;
            lemma_u32_round_trip(g.last_stream_id.id);
            lemma_u32_round_trip(g.reason.spec_code());
            assert(s =~= spec_head_bytes((8 + g.data@.len()) as u32, Kind::GoAway, 0, 0)
                + body);
            lemma_head_parse(s, (8 + g.data@.len()) as u32, Kind::GoAway, 0, 0, body);
            assert(s[9] == u32_be(g.last_stream_id.id)[0] && s[10] == u32_be(
                g.last_stream_id.id,
            )[1] && s[11] == u32_be(g.last_stream_id.id)[2] && s[12] == u32_be(
                g.last_stream_id.id,
            )[3]);
            assert(s[13] == u32_be(g.reason.spec_code())[0] && s[14] == u32_be(
                g.reason.spec_code(),
            )[1] && s[15] == u32_be(g.reason.spec_code())[2] && s[16] == u32_be(
                g.reason.spec_code(),
            )[3]);
            crate::frame::lemma_reason_code_round_trip(g.reason);
            assert(s.skip(17) =~= g.data@);
        },
        Frame::WindowUpdate(w) => {
            lemma_u32_round_trip(w.size_increment);
            lemma_head_parse(s, 4, Kind::WindowUpdate, 0, w.stream_id.id, u32_be(
                w.size_increment,
            ));
            assert(s[9] == u32_be(w.size_increment)[0] && s[10] == u32_be(w.size_increment)[1]
                && s[11] == u32_be(w.size_increment)[2] && s[12] == u32_be(
                w.size_increment,
            )[3]);
        },
        _ => {},
    }
}

/// A well-formed head followed by its payload parses back into its
/// fields: the length, type code, flags and 31-bit stream id survive.
proof fn lemma_head_parse(s: Seq<u8>, len: u32, kind: Kind, flag: u8, id: u32, payload: Seq<u8>)
    requires
        s == spec_head_bytes(len, kind, flag, id) + payload,
        payload.len() == len,
        len < 0x1000000,
        id <= MAX_STREAM_ID,
    ensures
        s.len() == 9 + len,
        be_u24(s[0], s[1], s[2]) == len,
        s[3] == kind.spec_code(),
        Kind::spec_from_code(s[3]) == Some(kind),
        s[4] == flag,
        (be_u32(s[5], s[6], s[7], s[8]) % 0x80000000) as u32 == id,
{
    let h = spec_head_bytes(len, kind, flag, id);
    reveal(u24_be);
    reveal(u32_be);
    assert(h.len() == 9);
    assert(s[0] == h[0] && s[1] == h[1] && s[2] == h[2] && s[3] == h[3] && s[4] == h[4] && s[5]
        == h[5] && s[6] == h[6] && s[7] == h[7] && s[8] == h[8]);
    assert(h[0] == u24_be(len)[0] && h[1] == u24_be(len)[1] && h[2] == u24_be(len)[2]);
    assert(h[3] == kind.spec_code() && h[4] == flag);
    assert(h[5] == u32_be(id)[0] && h[6] == u32_be(id)[1] && h[7] == u32_be(id)[2] && h[8]
        == u32_be(id)[3]);
    lemma_u24_round_trip(len);
    lemma_u32_round_trip(id);
    crate::frame::lemma_kind_code_round_trip(kind);
}

fn read_u32_be(buf: &[u8], i: usize) -> (r: u32)
    requires
        i + 4 <= buf@.len(),
    ensures
        r == be_u32(buf@[i as int], buf@[i + 1], buf@[i + 2], buf@[i + 3]),
{
    buf[i] as u32 * 16777216 + buf[i + 1] as u32 * 65536 + buf[i + 2] as u32 * 256 + buf[i
        + 3] as u32
}

/// Reads one whole frame off the wire. The result round-trips: what comes
/// back shows exactly the wire view `spec_parse_frame` assigns the bytes.
pub fn decode_frame(buf: &[u8]) -> (r: Result<Frame, FrameError>)
    ensures
        match (r, spec_parse_frame(buf@)) {
            (Ok(f), Ok(w)) => spec_frame_wire(f) == w,
            (Err(e1), Err(e2)) => e1 == e2,
            _ => false,
        },
{
    if buf.len() < 9 {
        return Err(FrameError::BadFrameSize);
    }
    let len: u32 = buf[0] as u32 * 65536 + buf[1] as u32 * 256 + buf[2] as u32;
    let flag = buf[4];
    let id: u32 = read_u32_be(buf, 5) % 0x80000000;
    if buf.len() - 9 != len as usize {
        return Err(FrameError::BadFrameSize);
    }
    let kind = match Kind::from_code(buf[3]) {
        None => {
            return Err(FrameError::UnsupportedKind);
        },
        Some(k) => k,
    };
    match kind {
        Kind::Data => {
            if id == 0 {
                return Err(FrameError::InvalidStreamId);
            }
            let payload = bytes_from_slice(vstd::slice::slice_subrange(buf, 9, buf.len()));
            Ok(Frame::Data(Data { stream_id: StreamId { id }, payload, eof: flag & 1 == 1 }))
        },
        Kind::Headers => Err(FrameError::UnsupportedKind),
        Kind::Continuation => Err(FrameError::UnsupportedKind),
        Kind::PushPromise => Err(FrameError::UnexpectedPushPromise),
        Kind::Priority => {
            if id == 0 {
                return Err(FrameError::InvalidStreamId);
            }
            if len != 5 {
                return Err(FrameError::BadFrameSize);
            }
            Ok(Frame::Priority(Priority { stream_id: StreamId { id } }))
        },
        Kind::Reset => {
            if id == 0 {
                return Err(FrameError::InvalidStreamId);
            }
            if len != 4 {
                return Err(FrameError::BadFrameSize);
            }
            let reason = Reason::from_code(read_u32_be(buf, 9));
            Ok(Frame::Reset(Reset { stream_id: StreamId { id }, reason }))
        },
        Kind::Settings => {
            if id != 0 {
                return Err(FrameError::InvalidStreamId);
            }
            if flag & 1 == 1 {
                if len != 0 {
                    return Err(FrameError::BadFrameSize);
                }
                return Ok(Frame::Settings(Settings::new_ack()));
            }
            if len % 6 != 0 {
                return Err(FrameError::BadFrameSize);
            }
            let mut acc = Settings::new();
            let mut i: usize = 9;
            while buf.len() - i >= 6
                invariant
                    9 <= i <= buf@.len(),
                    (i - 9) % 6 == 0,
                    buf@.len() >= 9,
                    (buf@.len() - 9) % 6 == 0,
                    !acc.ack,
                    spec_apply_settings(buf@.skip(9), Settings::spec_default())
                        == spec_apply_settings(buf@.skip(i as int), acc),
                decreases buf@.len() - i,
            {
                let sid: u16 = buf[i] as u16 * 256 + buf[i + 1] as u16;
                let value = read_u32_be(buf, i + 2);
                let ghost prev = acc;
                if sid == 1 {
                    acc = Settings { header_table_size: Some(value), ..acc };
                } else if sid == 2 {
                    acc = Settings { enable_push: Some(value), ..acc };
                } else if sid == 3 {
                    acc = Settings { max_concurrent_streams: Some(value), ..acc };
                } else if sid == 4 {
                    acc = Settings { initial_window_size: Some(value), ..acc };
                } else if sid == 5 {
                    acc = Settings { max_frame_size: Some(value), ..acc };
                } else if sid == 6 {
                    acc = Settings { max_header_list_size: Some(value), ..acc };
                } else if sid == 8 {
                    acc = Settings { enable_connect_protocol: Some(value), ..acc };
                }
                proof {
                    let rest = buf@.skip(i as int);
                    assert(rest.len() >= 6);
                    assert(rest[0] == buf@[i as int] && rest[1] == buf@[i + 1] && rest[2]
                        == buf@[i + 2] && rest[3] == buf@[i + 3] && rest[4] == buf@[i + 4]
                        && rest[5] == buf@[i + 5]);
                    assert(acc == spec_apply_setting(
                        be_u16(rest[0], rest[1]),
                        be_u32(rest[2], rest[3], rest[4], rest[5]) as u32,
                        prev,
                    ));
                    assert(rest.skip(6) =~= buf@.skip(i + 6));
                }
                i = i + 6;
            }
            proof {
                assert(buf@.skip(i as int).len() < 6);
                assert(i == buf@.len());
            }
            Ok(Frame::Settings(acc))
        },
        Kind::Ping => {
            if id != 0 {
                return Err(FrameError::InvalidStreamId);
            }
            if len != 8 {
                return Err(FrameError::BadFrameSize);
            }
            let payload: [u8; 8] = [
                buf[9],
                buf[10],
                buf[11],
                buf[12],
                buf[13],
                buf[14],
                buf[15],
                buf[16],
            ];
            proof {
                assert(payload@ =~= buf@.skip(9));
            }
            Ok(Frame::Ping(Ping { ack: flag & 1 == 1, payload }))
        },
        Kind::GoAway => {
            if id != 0 {
                return Err(FrameError::InvalidStreamId);
            }
            if len < 8 {
                return Err(FrameError::BadFrameSize);
            }
            let last: u32 = read_u32_be(buf, 9) % 0x80000000;
            let reason = Reason::from_code(read_u32_be(buf, 13));
            let data = vstd::slice::slice_to_vec(
                vstd::slice::slice_subrange(buf, 17, buf.len()),
            );
            proof {
                assert(data@ =~= buf@.skip(17));
            }
            Ok(Frame::GoAway(GoAway { reason, last_stream_id: StreamId { id: last }, data }))
        },
        Kind::WindowUpdate => {
            if len != 4 {
                return Err(FrameError::BadFrameSize);
            }
            let inc: u32 = read_u32_be(buf, 9) % 0x80000000;
            Ok(Frame::WindowUpdate(WindowUpdate {
                stream_id: StreamId { id },
                size_increment: inc,
            }))
        },
    }
}

} // verus!
