//! Commands to the flight controller and the identifiers they carry.

use crate::error::PacketError;
use crate::msg::MsgType;
use crate::packet::{frame_of, parse_frame};
use crate::wire::{be_bytes, float_to_bytes, Binary32};
use vstd::prelude::*;
use vstd::string::StringSliceAdditionalSpecFns;

verus! {

/// The kind of airframe.
#[derive(Clone, Copy, Debug, PartialEq, Eq, Structural)]
pub enum AircraftType {
    Quadcopter,
    FlyingWing,
}

/// A motor output of the flight controller.
#[derive(Clone, Copy, Debug, PartialEq, Eq, Structural)]
pub enum Rotor {
    R1,
    R2,
    R3,
    R4,
}

impl Rotor {
    /// Number of the output, from zero.
    pub open spec fn spec_to_byte(&self) -> u8 {
        match self {
            Rotor::R1 => 0,
            Rotor::R2 => 1,
            Rotor::R3 => 2,
            Rotor::R4 => 3,
        }
    }

    /// Number of the output, from zero.
    #[verifier::when_used_as_spec(spec_to_byte)]
    pub fn to_byte(&self) -> (byte: u8)
        ensures
            byte == self.spec_to_byte(),
    {
        match self {
            Self::R1 => 0,
            Self::R2 => 1,
            Self::R3 => 2,
            Self::R4 => 3,
        }
    }
}

/// Where on the airframe a rotor sits.
#[derive(Clone, Copy, Debug, PartialEq, Eq, Structural)]
pub enum RotorPosition {
    FrontLeft,
    FrontRight,
    AftLeft,
    AftRight,
}

impl RotorPosition {
    /// The byte that names the position on the wire.
    pub open spec fn spec_to_byte(&self) -> u8 {
        match self {
            RotorPosition::FrontLeft => 0,
            RotorPosition::FrontRight => 1,
            RotorPosition::AftLeft => 2,
            RotorPosition::AftRight => 3,
        }
    }

    /// The position that a name stands for: `front-left`, `front-right`,
    /// `aft-left` or `aft-right`.
    pub open spec fn with_name(name: Seq<char>) -> Option<RotorPosition> {
        if name == "front-left"@ {
            Some(RotorPosition::FrontLeft)
        } else if name == "front-right"@ {
            Some(RotorPosition::FrontRight)
        } else if name == "aft-left"@ {
            Some(RotorPosition::AftLeft)
        } else if name == "aft-right"@ {
            Some(RotorPosition::AftRight)
        } else {
            None
        }
    }

    /// The byte that names the position on the wire.
    #[verifier::when_used_as_spec(spec_to_byte)]
    pub fn to_byte(&self) -> (byte: u8)
        ensures
            byte == self.spec_to_byte(),
    {
        match self {
            Self::FrontLeft => 0,
            Self::FrontRight => 1,
            Self::AftLeft => 2,
            Self::AftRight => 3,
        }
    }

    /// Reads a position from its name; any other text names none.
    pub fn from_name(name: &str) -> (position: Option<RotorPosition>)
        ensures
            position == RotorPosition::with_name(name@),
    {
        if same_text(name, "front-left") {
            Some(Self::FrontLeft)
        } else if same_text(name, "front-right") {
            Some(Self::FrontRight)
        } else if same_text(name, "aft-left") {
            Some(Self::AftLeft)
        } else if same_text(name, "aft-right") {
            Some(Self::AftRight)
        } else {
            None
        }
    }
}

/// A servo output of the flight controller.
#[derive(Clone, Copy, Debug, PartialEq, Eq, Structural)]
pub enum ServoWing {
    S1,
    S2,
}

/// Which wing a servo moves.
#[derive(Clone, Copy, Debug, PartialEq, Eq, Structural)]
pub enum ServoWingPosition {
    Left,
    Right,
}

impl ServoWingPosition {
    /// The byte that names the position on the wire.
    pub open spec fn spec_to_byte(&self) -> u8 {
        match self {
            ServoWingPosition::Left => 0,
            ServoWingPosition::Right => 1,
        }
    }

    /// The byte that names the position on the wire.
    #[verifier::when_used_as_spec(spec_to_byte)]
    pub fn to_byte(&self) -> (byte: u8)
        ensures
            byte == self.spec_to_byte(),
    {
        match self {
            Self::Left => 0,
            Self::Right => 1,
        }
    }
}

/// Whether two texts hold the same characters.
fn same_text(a: &str, b: &str) -> (same: bool)
    ensures
        same == (a@ == b@),
{
    let x = a.as_bytes();
    let y = b.as_bytes();
    proof {
        vstd::utf8::encode_utf8_decode_utf8(a@);
        vstd::utf8::encode_utf8_decode_utf8(b@);
    }
    if x.len() != y.len() {
        return false;
    }
    let mut i: usize = 0;
    while i < x.len()
        invariant
            i <= x@.len(),
            x@.len() == y@.len(),
            x@ == a.spec_bytes(),
            y@ == b.spec_bytes(),
            forall|k: int| 0 <= k < i ==> x@[k] == y@[k],
        decreases x@.len() - i,
    {
        if x[i] != y[i] {
            return false;
        }
        i += 1;
    }
    assert(x@ =~= y@);
    true
}

/// A command to the flight controller.
#[derive(Clone, Copy, Debug, PartialEq, Eq, Structural)]
pub enum Command {
    ArmMotors,
    DisarmMotors,
    /// Spin up the rotor at a position.
    StartMotor(RotorPosition),
    /// Stop the rotor at a position.
    StopMotor(RotorPosition),
    /// Move the servo of a wing to a position.
    SetServoPosit(ServoWingPosition, Binary32),
}

impl Command {
    /// The message type that carries the command.
    pub open spec fn spec_message_type(&self) -> MsgType {
        match self {
            Command::ArmMotors => MsgType::ArmMotors,
            Command::DisarmMotors => MsgType::DisarmMotors,
            Command::StartMotor(_) => MsgType::StartMotor,
            Command::StopMotor(_) => MsgType::StopMotor,
            Command::SetServoPosit(_, _) => MsgType::SetServoPosit,
        }
    }

    /// The payload of the command: nothing to arm and disarm, the
    /// position's byte for a motor, the wing's byte and the four bytes of
    /// the commanded value for a servo.
    pub open spec fn payload(&self) -> Seq<u8> {
        match self {
            Command::ArmMotors => Seq::<u8>::empty(),
            Command::DisarmMotors => Seq::<u8>::empty(),
            Command::StartMotor(position) => seq![position.spec_to_byte()],
            Command::StopMotor(position) => seq![position.spec_to_byte()],
            Command::SetServoPosit(wing, value) => seq![wing.spec_to_byte()] + be_bytes(
                value.bits,
            ),
        }
    }

    /// The message type that carries the command.
    #[verifier::when_used_as_spec(spec_message_type)]
    pub fn message_type(&self) -> (t: MsgType)
        ensures
            t == self.spec_message_type(),
    {
        match self {
            Self::ArmMotors => MsgType::ArmMotors,
            Self::DisarmMotors => MsgType::DisarmMotors,
            Self::StartMotor(_) => MsgType::StartMotor,
            Self::StopMotor(_) => MsgType::StopMotor,
            Self::SetServoPosit(_, _) => MsgType::SetServoPosit,
        }
    }

    /// The payload of the command, of the length that its message type
    /// fixes.
    pub fn payload_bytes(&self) -> (bytes: Vec<u8>)
        ensures
            bytes@ == self.payload(),
            bytes@.len() == self.spec_message_type().spec_payload_size(),
    {
        let mut bytes: Vec<u8> = Vec::new();
        match self {
            Self::ArmMotors => {},
            Self::DisarmMotors => {},
            Self::StartMotor(position) => {
                bytes.push(position.to_byte());
            },
            Self::StopMotor(position) => {
                bytes.push(position.to_byte());
            },
            Self::SetServoPosit(wing, value) => {
                let word = float_to_bytes(*value);
                bytes.push(wing.to_byte());
                bytes.push(word[0]);
                bytes.push(word[1]);
                bytes.push(word[2]);
                bytes.push(word[3]);
            },
        }
        assert(bytes@ =~= self.payload());
        bytes
    }

    /// The frame that sends the command: type id, payload, checksum.
    pub fn encode(&self, lut: &[u8; 256]) -> (bytes: Vec<u8>)
        ensures
            bytes@ == frame_of(lut@, self.spec_message_type(), self.payload()),
    {
        let payload = self.payload_bytes();
        match crate::packet::encode(lut, self.message_type(), payload.as_slice()) {
            Ok(bytes) => bytes,
            Err(_) => vstd::pervasive::unreached(),
        }
    }
}

/// The frame of a command reads back as the command's message type and
/// payload, under any table.
pub proof fn lemma_command_round_trip(lut: Seq<u8>, command: Command)
    ensures
        parse_frame(lut, frame_of(lut, command.spec_message_type(), command.payload())) == Ok::<
            (MsgType, Seq<u8>),
            PacketError,
        >((command.spec_message_type(), command.payload())),
{
    crate::packet::lemma_frame_round_trip(lut, command.spec_message_type(), command.payload());
}

} // verus!
