//! The telemetry records and their decoders. Every record has a fixed
//! layout; single-precision fields are big-endian.

use crate::error::{DecodeError, DecodeField};
use crate::msg::{CONTROLS_SIZE, LINK_STATS_SIZE, PARAMS_SIZE, QUATERNION_SIZE};
use crate::wire::{float_at, read_float, Binary32};
use vstd::prelude::*;
use vstd::std_specs::convert::{FromSpecImpl, TryFromSpecImpl};

verus! {

/// Position of the input-mode switch.
#[derive(Clone, Copy, Debug, PartialEq, Eq, Structural)]
pub enum InputModeSwitch {
    /// Acro mode.
    Acro,
    /// Command mode where a position fix is present, attitude mode where
    /// not.
    AttitudeCommand,
}

impl InputModeSwitch {
    /// The switch position that a wire byte stands for.
    pub open spec fn with_byte(byte: u8) -> Option<InputModeSwitch> {
        if byte == 0 {
            Some(InputModeSwitch::Acro)
        } else if byte == 1 {
            Some(InputModeSwitch::AttitudeCommand)
        } else {
            None
        }
    }
}

impl Default for InputModeSwitch {
    fn default() -> (mode: Self)
        ensures
            mode == InputModeSwitch::Acro,
    {
        Self::Acro
    }
}

impl TryFrom<u8> for InputModeSwitch {
    type Error = DecodeError;

    fn try_from(byte: u8) -> (r: Result<Self, Self::Error>) {
        match byte {
            0 => Ok(Self::Acro),
            1 => Ok(Self::AttitudeCommand),
            _ => Err(DecodeError { field: DecodeField::InputMode, offset: 0, value: byte }),
        }
    }
}

impl TryFromSpecImpl<u8> for InputModeSwitch {
    open spec fn obeys_try_from_spec() -> bool {
        true
    }

    open spec fn try_from_spec(byte: u8) -> Result<Self, Self::Error> {
        match InputModeSwitch::with_byte(byte) {
            Some(mode) => Ok(mode),
            None => Err(DecodeError { field: DecodeField::InputMode, offset: 0, value: byte }),
        }
    }
}

/// Whether the motors are armed.
#[derive(Clone, Copy, Debug, PartialEq, Eq, Structural)]
pub enum ArmStatus {
    Disarmed,
    Armed,
}

impl ArmStatus {
    /// The arm status that a wire byte stands for.
    pub open spec fn with_byte(byte: u8) -> Option<ArmStatus> {
        if byte == 0 {
            Some(ArmStatus::Disarmed)
        } else if byte == 1 {
            Some(ArmStatus::Armed)
        } else {
            None
        }
    }
}

impl Default for ArmStatus {
    fn default() -> (status: Self)
        ensures
            status == ArmStatus::Disarmed,
    {
        Self::Disarmed
    }
}

impl TryFrom<u8> for ArmStatus {
    type Error = DecodeError;

    fn try_from(byte: u8) -> (r: Result<Self, Self::Error>) {
        match byte {
            0 => Ok(Self::Disarmed),
            1 => Ok(Self::Armed),
            _ => Err(DecodeError { field: DecodeField::ArmStatus, offset: 0, value: byte }),
        }
    }
}

impl TryFromSpecImpl<u8> for ArmStatus {
    open spec fn obeys_try_from_spec() -> bool {
        true
    }

    open spec fn try_from_spec(byte: u8) -> Result<Self, Self::Error> {
        match ArmStatus::with_byte(byte) {
            Some(status) => Ok(status),
            None => Err(DecodeError { field: DecodeField::ArmStatus, offset: 0, value: byte }),
        }
    }
}

/// Attitude as a unit quaternion.
#[derive(Clone, Copy, Debug, PartialEq, Eq, Structural)]
pub struct Quaternion {
    pub w: Binary32,
    pub x: Binary32,
    pub y: Binary32,
    pub z: Binary32,
}

impl Quaternion {
    /// The quaternion that sixteen bytes spell: w, x, y, z in that order.
    pub open spec fn decode(p: Seq<u8>) -> Quaternion
        recommends
            p.len() == QUATERNION_SIZE,
    {
        Quaternion {
            w: float_at(p, 0),
            x: float_at(p, 4),
            y: float_at(p, 8),
            z: float_at(p, 12),
        }
    }
}

impl Default for Quaternion {
    fn default() -> (q: Self)
        ensures
            q.w.bits == 0 && q.x.bits == 0 && q.y.bits == 0 && q.z.bits == 0,
    {
        let zero = Binary32 { bits: 0 };
        Quaternion { w: zero, x: zero, y: zero, z: zero }
    }
}

impl From<[u8; QUATERNION_SIZE]> for Quaternion {
    fn from(p: [u8; QUATERNION_SIZE]) -> (q: Self) {
        let bytes = p.as_slice();
        Quaternion {
            w: read_float(bytes, 0),
            x: read_float(bytes, 4),
            y: read_float(bytes, 8),
            z: read_float(bytes, 12),
        }
    }
}

impl FromSpecImpl<[u8; QUATERNION_SIZE]> for Quaternion {
    open spec fn obeys_from_spec() -> bool {
        true
    }

    open spec fn from_spec(p: [u8; QUATERNION_SIZE]) -> Self {
        Quaternion::decode(p@)
    }
}

/// What the pilot commands: four channels and two switches.
#[derive(Clone, Copy, Debug, PartialEq, Eq, Structural)]
pub struct ChannelData {
    /// Aileron, -1 to 1.
    pub roll: Binary32,
    /// Elevator, -1 to 1.
    pub pitch: Binary32,
    /// Throttle, 0 to 1, or -1 to 1 where the stick centres itself.
    pub throttle: Binary32,
    /// Rudder, -1 to 1.
    pub yaw: Binary32,
    pub arm_status: ArmStatus,
    pub input_mode: InputModeSwitch,
}

/// Offset of the arm-status byte in a controls payload.
pub const CONTROLS_ARM_STATUS: usize = 16;

/// Offset of the input-mode byte in a controls payload.
pub const CONTROLS_INPUT_MODE: usize = 17;

impl ChannelData {
    /// The record that eighteen bytes spell: pitch, roll, yaw, throttle,
    /// then the arm-status byte and the input-mode byte. A byte that is no
    /// arm status, or else one that is no input mode, is the error.
    pub open spec fn decode(p: Seq<u8>) -> Result<ChannelData, DecodeError>
        recommends
            p.len() == CONTROLS_SIZE,
    {
        match ArmStatus::with_byte(p[16]) {
            None => Err(DecodeError { field: DecodeField::ArmStatus, offset: 16, value: p[16] }),
            Some(arm_status) => match InputModeSwitch::with_byte(p[17]) {
                None => Err(
                    DecodeError { field: DecodeField::InputMode, offset: 17, value: p[17] },
                ),
                Some(input_mode) => Ok(
                    ChannelData {
                        pitch: float_at(p, 0),
                        roll: float_at(p, 4),
                        yaw: float_at(p, 8),
                        throttle: float_at(p, 12),
                        arm_status,
                        input_mode,
                    },
                ),
            },
        }
    }
}

impl Default for ChannelData {
    fn default() -> (c: Self)
        ensures
            c.roll.bits == 0 && c.pitch.bits == 0 && c.throttle.bits == 0 && c.yaw.bits == 0,
            c.arm_status == ArmStatus::Disarmed,
            c.input_mode == InputModeSwitch::Acro,
    {
        let zero = Binary32 { bits: 0 };
        ChannelData {
            roll: zero,
            pitch: zero,
            throttle: zero,
            yaw: zero,
            arm_status: ArmStatus::Disarmed,
            input_mode: InputModeSwitch::Acro,
        }
    }
}

impl TryFrom<[u8; CONTROLS_SIZE]> for ChannelData {
    type Error = DecodeError;

    fn try_from(p: [u8; CONTROLS_SIZE]) -> (r: Result<Self, Self::Error>) {
        let arm_status = match ArmStatus::try_from(p[CONTROLS_ARM_STATUS]) {
            Ok(status) => status,
            Err(e) => {
                return Err(
                    DecodeError { field: e.field, offset: CONTROLS_ARM_STATUS, value: e.value },
                );
            },
        };
        let input_mode = match InputModeSwitch::try_from(p[CONTROLS_INPUT_MODE]) {
            Ok(mode) => mode,
            Err(e) => {
                return Err(
                    DecodeError { field: e.field, offset: CONTROLS_INPUT_MODE, value: e.value },
                );
            },
        };
        let bytes = p.as_slice();
        Ok(
            ChannelData {
                pitch: read_float(bytes, 0),
                roll: read_float(bytes, 4),
                yaw: read_float(bytes, 8),
                throttle: read_float(bytes, 12),
                arm_status,
                input_mode,
            },
        )
    }
}

impl TryFromSpecImpl<[u8; CONTROLS_SIZE]> for ChannelData {
    open spec fn obeys_try_from_spec() -> bool {
        true
    }

    open spec fn try_from_spec(p: [u8; CONTROLS_SIZE]) -> Result<Self, Self::Error> {
        ChannelData::decode(p@)
    }
}

/// Statistics of the radio link. Only the uplink fields named in
/// [`LinkStats::decode`] travel on the wire; the others stay zero.
#[derive(Clone, Copy, Debug, PartialEq, Eq, Structural)]
pub struct LinkStats {
    /// When the statistics were recorded; not part of the payload.
    pub timestamp: u32,
    /// Uplink received signal strength, antenna 1.
    pub uplink_rssi_1: u8,
    /// Uplink received signal strength, antenna 2.
    pub uplink_rssi_2: u8,
    /// Uplink link quality: valid packets out of the last hundred.
    pub uplink_link_quality: u8,
    /// Uplink signal-to-noise ratio.
    pub uplink_snr: i8,
    /// Active antenna of a diversity receiver.
    pub active_antenna: u8,
    pub rf_mode: u8,
    /// Uplink transmit power.
    pub uplink_tx_power: u8,
    /// Downlink received signal strength.
    pub downlink_rssi: u8,
    /// Downlink link quality.
    pub downlink_link_quality: u8,
    /// Downlink signal-to-noise ratio.
    pub downlink_snr: i8,
}

/// A byte read as a signed number in two's complement.
pub open spec fn signed_byte(byte: u8) -> i8 {
    if byte < 128 {
        byte as i8
    } else {
        (byte - 256) as i8
    }
}

/// Reads a byte as a signed number in two's complement.
pub fn to_signed(byte: u8) -> (value: i8)
    ensures
        value == signed_byte(byte),
{
    if byte < 128 {
        byte as i8
    } else {
        (byte as i16 - 256) as i8
    }
}

impl LinkStats {
    /// The record with every field zero.
    pub open spec fn zero() -> LinkStats {
        LinkStats {
            timestamp: 0,
            uplink_rssi_1: 0,
            uplink_rssi_2: 0,
            uplink_link_quality: 0,
            uplink_snr: 0,
            active_antenna: 0,
            rf_mode: 0,
            uplink_tx_power: 0,
            downlink_rssi: 0,
            downlink_link_quality: 0,
            downlink_snr: 0,
        }
    }

    /// The record that five bytes spell: both uplink signal strengths, the
    /// uplink link quality, the signed uplink signal-to-noise ratio and the
    /// uplink transmit power. Every other field is zero.
    pub open spec fn decode(p: Seq<u8>) -> LinkStats
        recommends
            p.len() == LINK_STATS_SIZE,
    {
        LinkStats {
            uplink_rssi_1: p[0],
            uplink_rssi_2: p[1],
            uplink_link_quality: p[2],
            uplink_snr: signed_byte(p[3]),
            uplink_tx_power: p[4],
            ..LinkStats::zero()
        }
    }
}

impl Default for LinkStats {
    fn default() -> (stats: Self)
        ensures
            stats == LinkStats::zero(),
    {
        LinkStats {
            timestamp: 0,
            uplink_rssi_1: 0,
            uplink_rssi_2: 0,
            uplink_link_quality: 0,
            uplink_snr: 0,
            active_antenna: 0,
            rf_mode: 0,
            uplink_tx_power: 0,
            downlink_rssi: 0,
            downlink_link_quality: 0,
            downlink_snr: 0,
        }
    }
}

impl From<[u8; LINK_STATS_SIZE]> for LinkStats {
    fn from(p: [u8; LINK_STATS_SIZE]) -> (stats: Self) {
        LinkStats {
            timestamp: 0,
            uplink_rssi_1: p[0],
            uplink_rssi_2: p[1],
            uplink_link_quality: p[2],
            uplink_snr: to_signed(p[3]),
            active_antenna: 0,
            rf_mode: 0,
            uplink_tx_power: p[4],
            downlink_rssi: 0,
            downlink_link_quality: 0,
            downlink_snr: 0,
        }
    }
}

impl FromSpecImpl<[u8; LINK_STATS_SIZE]> for LinkStats {
    open spec fn obeys_from_spec() -> bool {
        true
    }

    open spec fn from_spec(p: [u8; LINK_STATS_SIZE]) -> Self {
        LinkStats::decode(p@)
    }
}

/// Attitude, altitude and power readings, as one payload carries them.
#[derive(Clone, Copy, Debug, PartialEq, Eq, Structural)]
pub struct Params {
    pub attitude_quat: Quaternion,
    /// Barometric altitude.
    pub altimeter: Binary32,
    /// Altitude above ground level, where the flight controller has one.
    pub altimeter_agl: Option<Binary32>,
    /// Battery voltage.
    pub batt_v: Binary32,
    /// Current draw.
    pub current: Binary32,
}

impl Params {
    /// The record that thirty-three bytes spell: the quaternion, the
    /// altimeter, one byte that says whether a ground-level reading
    /// follows (zero: none) and the four bytes of that reading, the battery
    /// voltage and the current.
    pub open spec fn decode(p: Seq<u8>) -> Params
        recommends
            p.len() == PARAMS_SIZE,
    {
        Params {
            attitude_quat: Quaternion::decode(p.subrange(0, 16)),
            altimeter: float_at(p, 16),
            altimeter_agl: if p[20] == 0 {
                None
            } else {
                Some(float_at(p, 21))
            },
            batt_v: float_at(p, 25),
            current: float_at(p, 29),
        }
    }
}

impl From<[u8; PARAMS_SIZE]> for Params {
    fn from(p: [u8; PARAMS_SIZE]) -> (params: Self) {
        let bytes = p.as_slice();
        let mut i: usize = 0;
        let attitude_quat = Quaternion::from(crate::wire::array_at::<QUATERNION_SIZE>(bytes, i));
        i += QUATERNION_SIZE;
        let altimeter = read_float(bytes, i);
        i += 4;
        let altimeter_agl = if p[i] == 0 {
            None
        } else {
            Some(read_float(bytes, i + 1))
        };
        i += 5;
        let batt_v = read_float(bytes, i);
        i += 4;
        let current = read_float(bytes, i);
        Params { attitude_quat, altimeter, altimeter_agl, batt_v, current }
    }
}

impl FromSpecImpl<[u8; PARAMS_SIZE]> for Params {
    open spec fn obeys_from_spec() -> bool {
        true
    }

    open spec fn from_spec(p: [u8; PARAMS_SIZE]) -> Self {
        Params::decode(p@)
    }
}

} // verus!
