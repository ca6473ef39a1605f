//! PING frames: 8 opaque octets, echoed back with the ACK flag.

use vstd::prelude::*;
use crate::frame::{Frame, FrameError, Head, Kind};

verus! {

/// The flag bit that marks a PING frame as a response.
pub const ACK_FLAG: u8 = 0x1;

/// The 8 opaque octets a PING frame carries.
pub type Payload = [u8; 8];

/// A PING frame: the ACK flag and the 8 opaque payload octets.
#[derive(Clone, Copy, PartialEq, Eq, Debug)]
pub struct Ping {
    pub ack: bool,
    pub payload: Payload,
}

/// The sentinel payload the engine sends when probing the peer before a
/// graceful shutdown.
pub open spec fn shutdown_payload_spec() -> Seq<u8> {
    seq![0x0bu8, 0x7bu8, 0xa2u8, 0xf0u8, 0x8bu8, 0x9bu8, 0xfeu8, 0x54u8]
}

/// The sentinel payload the engine sends for user-requested probes.
pub open spec fn user_payload_spec() -> Seq<u8> {
    seq![0x3bu8, 0x7cu8, 0xdbu8, 0x7au8, 0x0bu8, 0x87u8, 0x16u8, 0xb4u8]
}

impl Ping {
    /// The shutdown sentinel; distinct from all-zero payloads so this
    /// specific probe can be told apart from any other.
    pub fn shutdown_payload() -> (r: Payload)
        ensures
            r@ == shutdown_payload_spec(),
    {
        let r: Payload = [0x0b, 0x7b, 0xa2, 0xf0, 0x8b, 0x9b, 0xfe, 0x54];
        proof {
            assert(r@ =~= shutdown_payload_spec());
        }
        r
    }

    /// The user-probe sentinel.
    pub fn user_payload() -> (r: Payload)
        ensures
            r@ == user_payload_spec(),
    {
        let r: Payload = [0x3b, 0x7c, 0xdb, 0x7a, 0x0b, 0x87, 0x16, 0xb4];
        proof {
            assert(r@ =~= user_payload_spec());
        }
        r
    }

    pub fn new(payload: Payload) -> (r: Ping)
        ensures
            r == (Ping { ack: false, payload }),
    {
        Ping { ack: false, payload }
    }

    pub fn pong(payload: Payload) -> (r: Ping)
        ensures
            r == (Ping { ack: true, payload }),
    {
        Ping { ack: true, payload }
    }

    pub fn is_ack(&self) -> (r: bool)
        ensures
            r == self.ack,
    {
        self.ack
    }

    pub fn payload(&self) -> (r: &Payload)
        ensures
            *r == self.payload,
    {
        &self.payload
    }

    pub fn into_payload(self) -> (r: Payload)
        ensures
            r == self.payload,
    {
        self.payload
    }

    /// Puts this PING on the wire: the 9-octet head followed by the 8
    /// opaque payload octets.
    pub fn encode(&self, dst: &mut Vec<u8>)
        ensures
            final(dst)@ == old(dst)@ + crate::codec::spec_frame_bytes(Frame::Ping(*self)),
    {
        match crate::codec::encode_frame(&Frame::Ping(*self)) {
            Ok(mut bytes) => {
                dst.append(&mut bytes);
            },
            Err(_) => {
                proof {
                    assert(false);
                }
            },
        }
    }

    /// Builds a `Ping` frame from a raw frame's header and payload.
    ///
    /// PING frames are not associated with any individual stream: a nonzero
    /// stream identifier is a connection error of type PROTOCOL_ERROR. The
    /// payload must be exactly 8 octets; any other length is a connection
    /// error of type FRAME_SIZE_ERROR.
    pub fn load(head: Head, bytes: &[u8]) -> (r: Result<Ping, FrameError>)
        requires
            head.kind == Kind::Ping,
        ensures
            head.stream_id.id != 0 ==> r == Err::<Ping, FrameError>(FrameError::InvalidStreamId),
            head.stream_id.id == 0 && bytes@.len() != 8 ==> r == Err::<Ping, FrameError>(
                FrameError::BadFrameSize,
            ),
            head.stream_id.id == 0 && bytes@.len() == 8 ==> (r matches Ok(p) && p.payload@
                == bytes@ && p.ack == ((head.flag & ACK_FLAG) != 0)),
    {
        if !head.stream_id().is_zero() {
            return Err(FrameError::InvalidStreamId);
        }
        if bytes.len() != 8 {
            return Err(FrameError::BadFrameSize);
        }
        let payload: Payload = [
            bytes[0],
            bytes[1],
            bytes[2],
            bytes[3],
            bytes[4],
            bytes[5],
            bytes[6],
            bytes[7],
        ];
        proof {
            assert(payload@ =~= bytes@);
        }
        let ack = head.flag() & ACK_FLAG != 0;
        Ok(Ping { ack, payload })
    }
}

} // verus!
