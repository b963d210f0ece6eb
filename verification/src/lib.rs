//! Wire protocol between a ground station and a flight controller on a
//! serial link: message registry, CRC-8, packet framing, payload decoding,
//! command encoding and the polling sequence.

pub mod command;
pub mod crc;
pub mod error;
pub mod msg;
pub mod packet;
pub mod session;
pub mod snapshot;
pub mod telemetry;
pub mod waypoint;
pub mod wire;
