//! Node addresses and the compact form used in frame headers.

use vstd::prelude::*;

verus! {

/// A node address of the robot, in its human-readable form.
#[allow(non_camel_case_types)]
#[derive(Debug, Clone, Copy, PartialEq, Eq, Structural)]
pub enum RMS1Address {
    camera_id,
    mobile_id,
    chassis_id,
    gimbal_id,
    gun_id,
    vision_id,
    battery_id,
    hdvt_uav_id,
    system_id,
    system_scratch_id,
    scratch_sys_id,
    scratch_script_id,
    armor_id,
    armor1_id,
    armor2_id,
    armor3_id,
    armor4_id,
    armor5_id,
    armor6_id,
    esc0_id,
    esc1_id,
    esc2_id,
    esc3_id,
    blackbox_id,
    sensor_adapter_id,
    sensor_adapter1_id,
    sensor_adapter2_id,
    sensor_adapter3_id,
    sensor_adapter4_id,
    sensor_adapter5_id,
    sensor_adapter6_id,
    sensor_adapter7_id,
    tof_id,
    tof1_id,
    tof2_id,
    tof3_id,
    tof4_id,
    servo_id,
    servo1_id,
    servo2_id,
    servo3_id,
    servo4_id,
    robotic_gripper_id,
    robotic_arm_id,
}

impl RMS1Address {
    /// The wire value.
    pub open spec fn spec_value(self) -> u16 {
        match self {
            RMS1Address::camera_id => 0x64,
            RMS1Address::mobile_id => 0xc8,
            RMS1Address::chassis_id => 0x132,
            RMS1Address::gimbal_id => 0x190,
            RMS1Address::gun_id => 0x8fc,
            RMS1Address::vision_id => 0x6ab,
            RMS1Address::battery_id => 0x44c,
            RMS1Address::hdvt_uav_id => 0x384,
            RMS1Address::system_id => 0x321,
            RMS1Address::system_scratch_id => 0x323,
            RMS1Address::scratch_sys_id => 0x389,
            RMS1Address::scratch_script_id => 0x38a,
            RMS1Address::armor_id => 0x960,
            RMS1Address::armor1_id => 0x961,
            RMS1Address::armor2_id => 0x962,
            RMS1Address::armor3_id => 0x963,
            RMS1Address::armor4_id => 0x964,
            RMS1Address::armor5_id => 0x965,
            RMS1Address::armor6_id => 0x966,
            RMS1Address::esc0_id => 0x4b0,
            RMS1Address::esc1_id => 0x4b1,
            RMS1Address::esc2_id => 0x4b2,
            RMS1Address::esc3_id => 0x4b3,
            RMS1Address::blackbox_id => 0xb54,
            RMS1Address::sensor_adapter_id => 0x898,
            RMS1Address::sensor_adapter1_id => 0x899,
            RMS1Address::sensor_adapter2_id => 0x89a,
            RMS1Address::sensor_adapter3_id => 0x89b,
            RMS1Address::sensor_adapter4_id => 0x89c,
            RMS1Address::sensor_adapter5_id => 0x89d,
            RMS1Address::sensor_adapter6_id => 0x89e,
            RMS1Address::sensor_adapter7_id => 0x89f,
            RMS1Address::tof_id => 0x708,
            RMS1Address::tof1_id => 0x709,
            RMS1Address::tof2_id => 0x70a,
            RMS1Address::tof3_id => 0x70b,
            RMS1Address::tof4_id => 0x70c,
            RMS1Address::servo_id => 0x9c4,
            RMS1Address::servo1_id => 0x9c5,
            RMS1Address::servo2_id => 0x9c6,
            RMS1Address::servo3_id => 0x9c7,
            RMS1Address::servo4_id => 0x9c8,
            RMS1Address::robotic_gripper_id => 0xa8d,
            RMS1Address::robotic_arm_id => 0xa8e,
        }
    }

    pub fn value(self) -> (r: u16)
        ensures
            r == self.spec_value(),
    {
        match self {
            RMS1Address::camera_id => 0x64,
            RMS1Address::mobile_id => 0xc8,
            RMS1Address::chassis_id => 0x132,
            RMS1Address::gimbal_id => 0x190,
            RMS1Address::gun_id => 0x8fc,
            RMS1Address::vision_id => 0x6ab,
            RMS1Address::battery_id => 0x44c,
            RMS1Address::hdvt_uav_id => 0x384,
            RMS1Address::system_id => 0x321,
            RMS1Address::system_scratch_id => 0x323,
            RMS1Address::scratch_sys_id => 0x389,
            RMS1Address::scratch_script_id => 0x38a,
            RMS1Address::armor_id => 0x960,
            RMS1Address::armor1_id => 0x961,
            RMS1Address::armor2_id => 0x962,
            RMS1Address::armor3_id => 0x963,
            RMS1Address::armor4_id => 0x964,
            RMS1Address::armor5_id => 0x965,
            RMS1Address::armor6_id => 0x966,
            RMS1Address::esc0_id => 0x4b0,
            RMS1Address::esc1_id => 0x4b1,
            RMS1Address::esc2_id => 0x4b2,
            RMS1Address::esc3_id => 0x4b3,
            RMS1Address::blackbox_id => 0xb54,
            RMS1Address::sensor_adapter_id => 0x898,
            RMS1Address::sensor_adapter1_id => 0x899,
            RMS1Address::sensor_adapter2_id => 0x89a,
            RMS1Address::sensor_adapter3_id => 0x89b,
            RMS1Address::sensor_adapter4_id => 0x89c,
            RMS1Address::sensor_adapter5_id => 0x89d,
            RMS1Address::sensor_adapter6_id => 0x89e,
            RMS1Address::sensor_adapter7_id => 0x89f,
            RMS1Address::tof_id => 0x708,
            RMS1Address::tof1_id => 0x709,
            RMS1Address::tof2_id => 0x70a,
            RMS1Address::tof3_id => 0x70b,
            RMS1Address::tof4_id => 0x70c,
            RMS1Address::servo_id => 0x9c4,
            RMS1Address::servo1_id => 0x9c5,
            RMS1Address::servo2_id => 0x9c6,
            RMS1Address::servo3_id => 0x9c7,
            RMS1Address::servo4_id => 0x9c8,
            RMS1Address::robotic_gripper_id => 0xa8d,
            RMS1Address::robotic_arm_id => 0xa8e,
        }
    }

    /// The variant with wire value `v`, if there is one.
    pub fn try_from_value(v: u16) -> (r: Option<RMS1Address>)
        ensures
            r is Some ==> r->0.spec_value() == v,
            r is None ==> forall|e: RMS1Address| e.spec_value() != v,
    {
        match v {
            0x64 => Some(RMS1Address::camera_id),
            0xc8 => Some(RMS1Address::mobile_id),
            0x132 => Some(RMS1Address::chassis_id),
            0x190 => Some(RMS1Address::gimbal_id),
            0x8fc => Some(RMS1Address::gun_id),
            0x6ab => Some(RMS1Address::vision_id),
            0x44c => Some(RMS1Address::battery_id),
            0x384 => Some(RMS1Address::hdvt_uav_id),
            0x321 => Some(RMS1Address::system_id),
            0x323 => Some(RMS1Address::system_scratch_id),
            0x389 => Some(RMS1Address::scratch_sys_id),
            0x38a => Some(RMS1Address::scratch_script_id),
            0x960 => Some(RMS1Address::armor_id),
            0x961 => Some(RMS1Address::armor1_id),
            0x962 => Some(RMS1Address::armor2_id),
            0x963 => Some(RMS1Address::armor3_id),
            0x964 => Some(RMS1Address::armor4_id),
            0x965 => Some(RMS1Address::armor5_id),
            0x966 => Some(RMS1Address::armor6_id),
            0x4b0 => Some(RMS1Address::esc0_id),
            0x4b1 => Some(RMS1Address::esc1_id),
            0x4b2 => Some(RMS1Address::esc2_id),
            0x4b3 => Some(RMS1Address::esc3_id),
            0xb54 => Some(RMS1Address::blackbox_id),
            0x898 => Some(RMS1Address::sensor_adapter_id),
            0x899 => Some(RMS1Address::sensor_adapter1_id),
            0x89a => Some(RMS1Address::sensor_adapter2_id),
            0x89b => Some(RMS1Address::sensor_adapter3_id),
            0x89c => Some(RMS1Address::sensor_adapter4_id),
            0x89d => Some(RMS1Address::sensor_adapter5_id),
            0x89e => Some(RMS1Address::sensor_adapter6_id),
            0x89f => Some(RMS1Address::sensor_adapter7_id),
            0x708 => Some(RMS1Address::tof_id),
            0x709 => Some(RMS1Address::tof1_id),
            0x70a => Some(RMS1Address::tof2_id),
            0x70b => Some(RMS1Address::tof3_id),
            0x70c => Some(RMS1Address::tof4_id),
            0x9c4 => Some(RMS1Address::servo_id),
            0x9c5 => Some(RMS1Address::servo1_id),
            0x9c6 => Some(RMS1Address::servo2_id),
            0x9c7 => Some(RMS1Address::servo3_id),
            0x9c8 => Some(RMS1Address::servo4_id),
            0xa8d => Some(RMS1Address::robotic_gripper_id),
            0xa8e => Some(RMS1Address::robotic_arm_id),
            _ => None,
        }
    }
}

/// The one-byte address that stands for `host_id` in a frame header: the
/// hundreds in the low five bits, the rest modulo 8 in the high three.
pub open spec fn spec_host_to_pack_id(host_id: u16) -> u8 {
    ((host_id / 100) % 32 + (host_id % 100) % 8 * 32) as u8
}

/// Maps a human-readable node address to its one-byte form.
pub fn hostid2packid(host_id: u16) -> (r: u8)
    ensures
        r == spec_host_to_pack_id(host_id),
{
    let q: u16 = host_id / 100;
    let m: u16 = host_id % 100;
    let packed: u16 = (q & 0x1f) | ((m << 5u16) & 0xe0);
    assert((q & 0x1f) | ((m << 5u16) & 0xe0) == (q % 32) + (m % 8) * 32) by (bit_vector);
    packed as u8
}

} // verus!
