//! What can go wrong between raw bytes and typed records.

use vstd::prelude::*;

verus! {

/// The field of a payload that failed to decode.
#[derive(Clone, Copy, Debug, PartialEq, Eq, Structural)]
pub enum DecodeField {
    /// The arm-status byte of a controls payload.
    ArmStatus,
    /// The input-mode byte of a controls payload.
    InputMode,
    /// The name text of a waypoint slot.
    WaypointName,
}

/// A field that holds no legal value. `offset` is where the field starts
/// in the bytes that were handed to the decoder, and `value` is the byte
/// found there: for a one-byte field the offending byte itself, for a name
/// the first of its bytes.
#[derive(Clone, Copy, Debug, PartialEq, Eq, Structural)]
pub struct DecodeError {
    pub field: DecodeField,
    pub offset: usize,
    pub value: u8,
}

/// Why a buffer is not a frame of the expected message.
#[derive(Clone, Copy, Debug, PartialEq, Eq, Structural)]
pub enum FramingError {
    /// The buffer is not as long as the message type demands (type byte,
    /// payload, checksum), as after a short read.
    Length,
    /// The leading byte names a message type other than the expected one.
    LeadingByte,
}

/// Why a buffer was rejected by the packet codec.
#[derive(Clone, Copy, Debug, PartialEq, Eq, Structural)]
pub enum PacketError {
    Framing(FramingError),
    /// The trailing byte is not the checksum of type byte and payload.
    ChecksumMismatch,
    /// The leading byte, carried here, is no message type id.
    UnknownMessageType(u8),
}

} // verus!
