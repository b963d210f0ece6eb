//! The registry of message types: wire ids and payload lengths.

use crate::error::PacketError;
use crate::wire::F32_BYTES;
use vstd::prelude::*;
use vstd::std_specs::convert::TryFromSpecImpl;

verus! {

/// Attitude quaternion: four single-precision values.
pub const QUATERNION_SIZE: usize = F32_BYTES * 4;

/// Quaternion, altimeter, ground-level flag and altimeter, battery
/// voltage, current.
pub const PARAMS_SIZE: usize = QUATERNION_SIZE + F32_BYTES * 4 + 1;

/// Four channels, arm status, input mode.
pub const CONTROLS_SIZE: usize = 18;

/// The uplink fields of the link statistics.
pub const LINK_STATS_SIZE: usize = 5;

/// Number of slots in the waypoint table.
pub const MAX_WAYPOINTS: usize = 30;

/// Width of a waypoint's name field.
pub const WAYPOINT_MAX_NAME_LEN: usize = 7;

/// One waypoint slot: used flag, name, three coordinates.
pub const WAYPOINT_SIZE: usize = F32_BYTES * 3 + WAYPOINT_MAX_NAME_LEN + 1;

/// The whole waypoint table.
pub const WAYPOINTS_SIZE: usize = MAX_WAYPOINTS * WAYPOINT_SIZE;

/// Servo identifier and commanded position.
pub const SET_SERVO_POSIT_SIZE: usize = 1 + F32_BYTES;

/// A packet is its payload, the type byte before it and the checksum after.
pub const PARAMS_PACKET_SIZE: usize = PARAMS_SIZE + 2;

pub const CONTROLS_PACKET_SIZE: usize = CONTROLS_SIZE + 2;

pub const LINK_STATS_PACKET_SIZE: usize = LINK_STATS_SIZE + 2;

pub const WAYPOINTS_PACKET_SIZE: usize = WAYPOINTS_SIZE + 2;

/// Every kind of message of the protocol.
#[derive(Clone, Copy, Debug, PartialEq, Eq, Structural)]
pub enum MsgType {
    Params,
    SetMotorDirs,
    ReqParams,
    Ack,
    Controls,
    ReqControls,
    LinkStats,
    ReqLinkStats,
    ArmMotors,
    DisarmMotors,
    StartMotor,
    StopMotor,
    ReqWaypoints,
    Updatewaypoints,
    Waypoints,
    SetServoPosit,
}

impl MsgType {
    /// Payload length in bytes of each message type.
    pub open spec fn spec_payload_size(&self) -> usize {
        match self {
            MsgType::Params => 33,
            MsgType::SetMotorDirs => 1,
            MsgType::ReqParams => 0,
            MsgType::Ack => 0,
            MsgType::Controls => 18,
            MsgType::ReqControls => 0,
            MsgType::LinkStats => 5,
            MsgType::ReqLinkStats => 0,
            MsgType::ArmMotors => 0,
            MsgType::DisarmMotors => 0,
            MsgType::StartMotor => 1,
            MsgType::StopMotor => 1,
            MsgType::ReqWaypoints => 0,
            MsgType::Updatewaypoints => 10,
            MsgType::Waypoints => 600,
            MsgType::SetServoPosit => 5,
        }
    }

    /// Wire id of each message type.
    pub open spec fn spec_id(&self) -> u8 {
        match self {
            MsgType::Params => 0,
            MsgType::SetMotorDirs => 1,
            MsgType::ReqParams => 2,
            MsgType::Ack => 3,
            MsgType::Controls => 4,
            MsgType::ReqControls => 5,
            MsgType::LinkStats => 6,
            MsgType::ReqLinkStats => 7,
            MsgType::ArmMotors => 8,
            MsgType::DisarmMotors => 9,
            MsgType::StartMotor => 10,
            MsgType::StopMotor => 11,
            MsgType::ReqWaypoints => 12,
            MsgType::Updatewaypoints => 13,
            MsgType::Waypoints => 14,
            MsgType::SetServoPosit => 15,
        }
    }

    /// The message type with a given wire id, if there is one.
    pub open spec fn with_id(id: u8) -> Option<MsgType> {
        if id == 0 {
            Some(MsgType::Params)
        } else if id == 1 {
            Some(MsgType::SetMotorDirs)
        } else if id == 2 {
            Some(MsgType::ReqParams)
        } else if id == 3 {
            Some(MsgType::Ack)
        } else if id == 4 {
            Some(MsgType::Controls)
        } else if id == 5 {
            Some(MsgType::ReqControls)
        } else if id == 6 {
            Some(MsgType::LinkStats)
        } else if id == 7 {
            Some(MsgType::ReqLinkStats)
        } else if id == 8 {
            Some(MsgType::ArmMotors)
        } else if id == 9 {
            Some(MsgType::DisarmMotors)
        } else if id == 10 {
            Some(MsgType::StartMotor)
        } else if id == 11 {
            Some(MsgType::StopMotor)
        } else if id == 12 {
            Some(MsgType::ReqWaypoints)
        } else if id == 13 {
            Some(MsgType::Updatewaypoints)
        } else if id == 14 {
            Some(MsgType::Waypoints)
        } else if id == 15 {
            Some(MsgType::SetServoPosit)
        } else {
            None
        }
    }

    /// Payload length in bytes.
    #[verifier::when_used_as_spec(spec_payload_size)]
    pub fn payload_size(&self) -> (size: usize)
        ensures
            size == self.spec_payload_size(),
    {
        match self {
            Self::Params => PARAMS_SIZE,
            Self::SetMotorDirs => 1,
            Self::ReqParams => 0,
            Self::Ack => 0,
            Self::Controls => CONTROLS_SIZE,
            Self::ReqControls => 0,
            Self::LinkStats => LINK_STATS_SIZE,
            Self::ReqLinkStats => 0,
            Self::ArmMotors => 0,
            Self::DisarmMotors => 0,
            Self::StartMotor => 1,
            Self::StopMotor => 1,
            Self::ReqWaypoints => 0,
            Self::Updatewaypoints => 10,
            Self::Waypoints => WAYPOINTS_SIZE,
            Self::SetServoPosit => SET_SERVO_POSIT_SIZE,
        }
    }

    /// Wire id.
    #[verifier::when_used_as_spec(spec_id)]
    pub fn id(&self) -> (id: u8)
        ensures
            id == self.spec_id(),
    {
        match self {
            Self::Params => 0,
            Self::SetMotorDirs => 1,
            Self::ReqParams => 2,
            Self::Ack => 3,
            Self::Controls => 4,
            Self::ReqControls => 5,
            Self::LinkStats => 6,
            Self::ReqLinkStats => 7,
            Self::ArmMotors => 8,
            Self::DisarmMotors => 9,
            Self::StartMotor => 10,
            Self::StopMotor => 11,
            Self::ReqWaypoints => 12,
            Self::Updatewaypoints => 13,
            Self::Waypoints => 14,
            Self::SetServoPosit => 15,
        }
    }
}

impl TryFrom<u8> for MsgType {
    type Error = PacketError;

    /// The message type that a wire id names; an id outside the registry
    /// is handed back in the error.
    fn try_from(id: u8) -> (r: Result<Self, Self::Error>) {
        match id {
            0 => Ok(Self::Params),
            1 => Ok(Self::SetMotorDirs),
            2 => Ok(Self::ReqParams),
            3 => Ok(Self::Ack),
            4 => Ok(Self::Controls),
            5 => Ok(Self::ReqControls),
            6 => Ok(Self::LinkStats),
            7 => Ok(Self::ReqLinkStats),
            8 => Ok(Self::ArmMotors),
            9 => Ok(Self::DisarmMotors),
            10 => Ok(Self::StartMotor),
            11 => Ok(Self::StopMotor),
            12 => Ok(Self::ReqWaypoints),
            13 => Ok(Self::Updatewaypoints),
            14 => Ok(Self::Waypoints),
            15 => Ok(Self::SetServoPosit),
            _ => Err(PacketError::UnknownMessageType(id)),
        }
    }
}

impl TryFromSpecImpl<u8> for MsgType {
    open spec fn obeys_try_from_spec() -> bool {
        true
    }

    open spec fn try_from_spec(id: u8) -> Result<Self, Self::Error> {
        match MsgType::with_id(id) {
            Some(t) => Ok(t),
            None => Err(PacketError::UnknownMessageType(id)),
        }
    }
}

/// A wire id names the message type that has it, and nothing else is a
/// wire id.
pub proof fn lemma_id_round_trip(t: MsgType, id: u8)
    ensures
        MsgType::with_id(t.spec_id()) == Some(t),
        MsgType::with_id(id) matches Some(u) ==> u.spec_id() == id,
        MsgType::with_id(id) is Some <==> id < 16,
{
}

/// The lengths of the registry in terms of the record layouts.
pub proof fn lemma_payload_sizes()
    ensures
        MsgType::Params.spec_payload_size() == PARAMS_SIZE,
        MsgType::Controls.spec_payload_size() == CONTROLS_SIZE,
        MsgType::LinkStats.spec_payload_size() == LINK_STATS_SIZE,
        MsgType::Waypoints.spec_payload_size() == WAYPOINTS_SIZE,
        MsgType::SetServoPosit.spec_payload_size() == SET_SERVO_POSIT_SIZE,
        QUATERNION_SIZE == 16,
        WAYPOINT_SIZE == 20,
{
}

} // verus!
