//! Packet framing: one type byte, the payload that the type fixes, and a
//! checksum over both.

use crate::crc::{check_crc, checksum, crc_matches, crc_of, with_crc};
use crate::error::{FramingError, PacketError};
use crate::msg::MsgType;
use vstd::prelude::*;

verus! {

/// A message as it travels: its type, its payload and the checksum that
/// closes it.
#[derive(Clone, Debug, PartialEq, Eq)]
pub struct Packet {
    pub message_type: MsgType,
    pub payload: Vec<u8>,
    pub checksum: u8,
}

/// The bytes that a checksum covers: the type id, then the payload.
pub open spec fn covered(message_type: MsgType, payload: Seq<u8>) -> Seq<u8> {
    seq![message_type.spec_id()] + payload
}

/// The frame of a message under the table `lut`: type id, payload and the
/// checksum of those.
pub open spec fn frame_of(lut: Seq<u8>, message_type: MsgType, payload: Seq<u8>) -> Seq<u8> {
    with_crc(lut, covered(message_type, payload))
}

/// What a buffer holds, read as a frame of whatever type its leading byte
/// names: type and payload, or the reason why it is no frame.
pub open spec fn parse_frame(lut: Seq<u8>, buf: Seq<u8>) -> Result<(MsgType, Seq<u8>), PacketError> {
    if buf.len() == 0 {
        Err(PacketError::Framing(FramingError::Length))
    } else {
        match MsgType::with_id(buf[0]) {
            None => Err(PacketError::UnknownMessageType(buf[0])),
            Some(t) => if buf.len() != t.spec_payload_size() + 2 {
                Err(PacketError::Framing(FramingError::Length))
            } else if !crc_matches(lut, buf) {
                Err(PacketError::ChecksumMismatch)
            } else {
                Ok((t, buf.subrange(1, buf.len() - 1)))
            },
        }
    }
}

/// What a buffer holds, read as the response of type `expected`: its
/// payload, or the reason for rejecting it. A leading byte that names
/// another type is a framing error and is told before the length is looked
/// at.
pub open spec fn parse_expected(lut: Seq<u8>, expected: MsgType, buf: Seq<u8>) -> Result<
    Seq<u8>,
    PacketError,
> {
    if buf.len() == 0 {
        Err(PacketError::Framing(FramingError::Length))
    } else {
        match MsgType::with_id(buf[0]) {
            None => Err(PacketError::UnknownMessageType(buf[0])),
            Some(t) => if t != expected {
                Err(PacketError::Framing(FramingError::LeadingByte))
            } else if buf.len() != expected.spec_payload_size() + 2 {
                Err(PacketError::Framing(FramingError::Length))
            } else if !crc_matches(lut, buf) {
                Err(PacketError::ChecksumMismatch)
            } else {
                Ok(buf.subrange(1, buf.len() - 1))
            },
        }
    }
}

/// Type id and payload, the bytes that the checksum is taken over.
fn covered_bytes(message_type: MsgType, payload: &[u8]) -> (bytes: Vec<u8>)
    ensures
        bytes@ == covered(message_type, payload@),
{
    let mut bytes: Vec<u8> = Vec::new();
    bytes.push(message_type.id());
    let mut i: usize = 0;
    while i < payload.len()
        invariant
            i <= payload@.len(),
            bytes@ == covered(message_type, payload@.take(i as int)),
        decreases payload@.len() - i,
    {
        bytes.push(payload[i]);
        i += 1;
        assert(bytes@ =~= covered(message_type, payload@.take(i as int)));
    }
    assert(payload@.take(payload@.len() as int) == payload@);
    bytes
}

impl Packet {
    /// The packet's bytes in wire order.
    pub open spec fn wire(&self) -> Seq<u8> {
        covered(self.message_type, self.payload@).push(self.checksum)
    }

    /// The payload has the length that the type fixes, and the checksum is
    /// that of type byte and payload under `lut`.
    pub open spec fn wf(&self, lut: Seq<u8>) -> bool {
        &&& self.payload@.len() == self.message_type.spec_payload_size()
        &&& self.checksum == crc_of(lut, covered(self.message_type, self.payload@))
    }

    /// Closes a payload into a packet of the given type. The payload must
    /// have the length that the type fixes.
    pub fn new(lut: &[u8; 256], message_type: MsgType, payload: Vec<u8>) -> (r: Result<
        Packet,
        PacketError,
    >)
        ensures
            payload@.len() == message_type.spec_payload_size() ==> r is Ok,
            payload@.len() != message_type.spec_payload_size() ==> r == Err::<Packet, PacketError>(
                PacketError::Framing(FramingError::Length),
            ),
            r matches Ok(p) ==> p.message_type == message_type && p.payload@ == payload@ && p.wf(
                lut@,
            ),
    {
        if payload.len() != message_type.payload_size() {
            return Err(PacketError::Framing(FramingError::Length));
        }
        let head = covered_bytes(message_type, payload.as_slice());
        let checksum = checksum(lut, head.as_slice());
        Ok(Packet { message_type, payload, checksum })
    }

    /// The packet's bytes in wire order: type id, payload, checksum.
    pub fn to_bytes(&self) -> (bytes: Vec<u8>)
        ensures
            bytes@ == self.wire(),
    {
        let mut bytes = covered_bytes(self.message_type, self.payload.as_slice());
        bytes.push(self.checksum);
        bytes
    }

    /// Reads a buffer as one frame of the type that its leading byte names.
    pub fn parse(lut: &[u8; 256], buf: &[u8]) -> (r: Result<Packet, PacketError>)
        ensures
            match r {
                Ok(p) => parse_frame(lut@, buf@) == Ok::<(MsgType, Seq<u8>), PacketError>(
                    (p.message_type, p.payload@),
                ) && p.wf(lut@) && p.wire() == buf@,
                Err(e) => parse_frame(lut@, buf@) == Err::<(MsgType, Seq<u8>), PacketError>(e),
            },
    {
        let n = buf.len();
        if n == 0 {
            return Err(PacketError::Framing(FramingError::Length));
        }
        let message_type = match MsgType::try_from(buf[0]) {
            Ok(t) => t,
            Err(e) => {
                return Err(e);
            },
        };
        if n - 1 != message_type.payload_size() + 1 {
            return Err(PacketError::Framing(FramingError::Length));
        }
        if !check_crc(lut, buf) {
            return Err(PacketError::ChecksumMismatch);
        }
        let payload = vstd::slice::slice_to_vec(vstd::slice::slice_subrange(buf, 1, n - 1));
        let p = Packet { message_type, payload, checksum: buf[n - 1] };
        proof {
            crate::msg::lemma_id_round_trip(message_type, buf@[0]);
            assert(covered(message_type, p.payload@) =~= buf@.drop_last());
            assert(p.wire() =~= buf@);
        }
        Ok(p)
    }
}

/// Builds the frame of a message: type id, payload, checksum. A request
/// without payload comes out as two bytes. The payload must have the
/// length that the type fixes.
pub fn encode(lut: &[u8; 256], message_type: MsgType, payload: &[u8]) -> (r: Result<
    Vec<u8>,
    PacketError,
>)
    ensures
        match r {
            Ok(bytes) => payload@.len() == message_type.spec_payload_size() && bytes@ == frame_of(
                lut@,
                message_type,
                payload@,
            ),
            Err(e) => payload@.len() != message_type.spec_payload_size() && e
                == PacketError::Framing(FramingError::Length),
        },
{
    if payload.len() != message_type.payload_size() {
        return Err(PacketError::Framing(FramingError::Length));
    }
    let mut bytes = covered_bytes(message_type, payload);
    let crc = checksum(lut, bytes.as_slice());
    bytes.push(crc);
    Ok(bytes)
}

/// Reads a buffer as the response of type `expected` and hands out its
/// payload only when leading byte, length and checksum are all in order.
pub fn parse_response(lut: &[u8; 256], expected: MsgType, buf: &[u8]) -> (r: Result<
    Vec<u8>,
    PacketError,
>)
    ensures
        match r {
            Ok(payload) => parse_expected(lut@, expected, buf@) == Ok::<Seq<u8>, PacketError>(
                payload@,
            ),
            Err(e) => parse_expected(lut@, expected, buf@) == Err::<Seq<u8>, PacketError>(e),
        },
{
    let n = buf.len();
    if n == 0 {
        return Err(PacketError::Framing(FramingError::Length));
    }
    let message_type = match MsgType::try_from(buf[0]) {
        Ok(t) => t,
        Err(e) => {
            return Err(e);
        },
    };
    if message_type != expected {
        return Err(PacketError::Framing(FramingError::LeadingByte));
    }
    if n - 1 != expected.payload_size() + 1 {
        return Err(PacketError::Framing(FramingError::Length));
    }
    if !check_crc(lut, buf) {
        return Err(PacketError::ChecksumMismatch);
    }
    Ok(vstd::slice::slice_to_vec(vstd::slice::slice_subrange(buf, 1, n - 1)))
}

/// A frame that was built for a message reads back as that message,
/// under any table.
pub proof fn lemma_frame_round_trip(lut: Seq<u8>, message_type: MsgType, payload: Seq<u8>)
    requires
        payload.len() == message_type.spec_payload_size(),
    ensures
        parse_frame(lut, frame_of(lut, message_type, payload)) == Ok::<
            (MsgType, Seq<u8>),
            PacketError,
        >((message_type, payload)),
        parse_expected(lut, message_type, frame_of(lut, message_type, payload)) == Ok::<
            Seq<u8>,
            PacketError,
        >(payload),
{
    let frame = frame_of(lut, message_type, payload);
    crate::msg::lemma_id_round_trip(message_type, 0);
    crate::crc::lemma_with_crc_matches(lut, covered(message_type, payload));
    assert(frame.subrange(1, frame.len() - 1) =~= payload);
}

/// Under the link's table, a frame with any one bit inverted is never
/// read as a message. Where the bit lies in the payload or in the
/// checksum, the reason is the checksum.
pub proof fn lemma_damaged_frame_rejected(
    message_type: MsgType,
    payload: Seq<u8>,
    at: int,
    bit: u8,
)
    requires
        payload.len() == message_type.spec_payload_size(),
        0 <= at < payload.len() + 2,
        bit < 8,
    ensures
        ({
            let lut = crate::crc::crc_table(crate::crc::CRC_POLY);
            let frame = frame_of(lut, message_type, payload);
            let damaged = frame.update(at, crate::crc::flip_bit(frame[at], bit));
            &&& parse_frame(lut, damaged) is Err
            &&& parse_expected(lut, message_type, damaged) is Err
            &&& at >= 1 ==> parse_frame(lut, damaged) == Err::<(MsgType, Seq<u8>), PacketError>(
                PacketError::ChecksumMismatch,
            ) && parse_expected(lut, message_type, damaged) == Err::<Seq<u8>, PacketError>(
                PacketError::ChecksumMismatch,
            )
        }),
{
    crate::crc::lemma_bit_flip_fails_check(covered(message_type, payload), at, bit);
    crate::msg::lemma_id_round_trip(message_type, 0);
}

} // verus!
