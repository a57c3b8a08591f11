//! Topic identifiers of the publish/subscribe protocol.
//!
//! A topic is named by an 8-byte id. The ids of the topics that the flight
//! controller publishes on the CAN bus end in `03 00 02 00`, 0x03 being the
//! flight controller's address.

use vstd::prelude::*;

verus! {

/// An 8-byte topic id, compared byte by byte.
#[derive(Debug, Clone, Copy, PartialEq, Eq)]
pub struct DdsUid {
    pub uid: [u8; 8],
}

/// Turret yaw.
pub const DDS_TURRET_YAW: [u8; 8] = [0xa7, 0x02, 0x29, 0x88, 0x03, 0x00, 0x02, 0x00];

/// Chassis velocity.
pub const DDS_CHASSIS_VELOCITY: [u8; 8] = [0x66, 0x3e, 0x3e, 0x4c, 0x03, 0x00, 0x02, 0x00];

/// Battery state.
pub const DDS_BATTERY_STATS: [u8; 8] = [0xfb, 0xdc, 0xf5, 0xd7, 0x03, 0x00, 0x02, 0x00];

/// Wheel controller state.
pub const DDS_ESC_STATE: [u8; 8] = [0x09, 0xa3, 0x26, 0xe2, 0x03, 0x00, 0x02, 0x00];

/// IMU data.
pub const DDS_IMU_DATA: [u8; 8] = [0xf4, 0x1d, 0x1c, 0xdc, 0x03, 0x00, 0x02, 0x00];

/// Turret attitude as roll, pitch and yaw.
pub const DDS_TURRET_ATTITUDE_RPY: [u8; 8] = [0x42, 0xee, 0x13, 0x1d, 0x03, 0x00, 0x02, 0x00];

/// Chassis position.
pub const DDS_BASE_POSITION: [u8; 8] = [0xb3, 0xf7, 0xe6, 0x47, 0x03, 0x00, 0x02, 0x00];

/// A topic of unknown content, subscribed together with the battery state.
pub const DDS_UNK_1: [u8; 8] = [0x9d, 0x1a, 0x1c, 0x99, 0x03, 0x00, 0x02, 0x00];

} // verus!
