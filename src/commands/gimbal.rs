//! Gimbal commands.

use vstd::prelude::*;
use crate::commands::{
    i16_bits, le_i16, le_u16_at, payload_i16, payload_u16, payload_u8, set_payload_i16,
    set_payload_u16, set_payload_u8,
};
use crate::duss::cmd_set_gimbal::GimbalCommandType;
use crate::duss::cmd_set_rm::RMCommandType;
use crate::duss::cmd_set_types::CommandSetType;
use crate::wire::{
    spec_frame_valid, spec_payload, FrameBuffer, FrameBufferMut, RMWireFrameView, MIN_FRAME_LEN,
};

verus! {

/// Reference frame of a gimbal angle command.
#[derive(Debug, Clone, Copy, PartialEq, Eq, Structural)]
pub enum GimbalCoordinateFrame {
    NED,
    CUR,
    CAR,
    Three,
    Four,
    Five,
    Unknown,
}

impl GimbalCoordinateFrame {
    /// The wire value.
    pub open spec fn spec_value(self) -> u8 {
        match self {
            GimbalCoordinateFrame::NED => 0x00,
            GimbalCoordinateFrame::CUR => 0x01,
            GimbalCoordinateFrame::CAR => 0x02,
            GimbalCoordinateFrame::Three => 0x03,
            GimbalCoordinateFrame::Four => 0x04,
            GimbalCoordinateFrame::Five => 0x05,
            GimbalCoordinateFrame::Unknown => 0xFF,
        }
    }

    pub fn value(self) -> (r: u8)
        ensures
            r == self.spec_value(),
    {
        match self {
            GimbalCoordinateFrame::NED => 0x00,
            GimbalCoordinateFrame::CUR => 0x01,
            GimbalCoordinateFrame::CAR => 0x02,
            GimbalCoordinateFrame::Three => 0x03,
            GimbalCoordinateFrame::Four => 0x04,
            GimbalCoordinateFrame::Five => 0x05,
            GimbalCoordinateFrame::Unknown => 0xFF,
        }
    }

    /// The frame with wire value `v`, if there is one.
    pub fn try_from_value(v: u8) -> (r: Option<GimbalCoordinateFrame>)
        ensures
            r is Some ==> r->0.spec_value() == v,
            r is None ==> forall|e: GimbalCoordinateFrame| e.spec_value() != v,
    {
        match v {
            0x00 => Some(GimbalCoordinateFrame::NED),
            0x01 => Some(GimbalCoordinateFrame::CUR),
            0x02 => Some(GimbalCoordinateFrame::CAR),
            0x03 => Some(GimbalCoordinateFrame::Three),
            0x04 => Some(GimbalCoordinateFrame::Four),
            0x05 => Some(GimbalCoordinateFrame::Five),
            0xFF => Some(GimbalCoordinateFrame::Unknown),
            _ => None,
        }
    }
}

/// Work mode of the gimbal.
#[derive(Debug, Clone, Copy, PartialEq, Eq, Structural)]
pub enum GimbalMode {
    Free,
    FPV,
    Follow,
    Unknown,
}

impl GimbalMode {
    /// The wire value.
    pub open spec fn spec_value(self) -> u8 {
        match self {
            GimbalMode::Free => 0x00,
            GimbalMode::FPV => 0x01,
            GimbalMode::Follow => 0x02,
            GimbalMode::Unknown => 0xFF,
        }
    }

    /// The mode that wire value `v` reads as: the known ones, and `Unknown`
    /// for every other value.
    pub open spec fn spec_from_wire(v: u8) -> GimbalMode {
        if v == 0x00 {
            GimbalMode::Free
        } else if v == 0x01 {
            GimbalMode::FPV
        } else if v == 0x02 {
            GimbalMode::Follow
        } else {
            GimbalMode::Unknown
        }
    }

    pub fn value(self) -> (r: u8)
        ensures
            r == self.spec_value(),
    {
        match self {
            GimbalMode::Free => 0x00,
            GimbalMode::FPV => 0x01,
            GimbalMode::Follow => 0x02,
            GimbalMode::Unknown => 0xFF,
        }
    }

    /// The mode with wire value `v`, if there is one.
    pub fn try_from_value(v: u8) -> (r: Option<GimbalMode>)
        ensures
            r is Some ==> r->0.spec_value() == v,
            r is None ==> forall|e: GimbalMode| e.spec_value() != v,
    {
        match v {
            0x00 => Some(GimbalMode::Free),
            0x01 => Some(GimbalMode::FPV),
            0x02 => Some(GimbalMode::Follow),
            0xFF => Some(GimbalMode::Unknown),
            _ => None,
        }
    }
}

/// Gimbal angle command of the RM command set: task bytes, then yaw, roll
/// and pitch angles, a deviation and three accelerations, all little-endian.
pub struct GimbalSetDegreeView<T> {
    pub packet: RMWireFrameView<T>,
}

impl<T: FrameBuffer> GimbalSetDegreeView<T> {
    pub fn new(packet: RMWireFrameView<T>) -> (r: Self)
        ensures
            r.packet@ == packet@,
    {
        GimbalSetDegreeView { packet }
    }

    /// Task id.
    pub fn task_id(&self) -> (r: u8)
        requires
            self.packet@.len() >= MIN_FRAME_LEN + 1,
        ensures
            r == spec_payload(self.packet@)[0],
    {
        payload_u8(&self.packet, 0)
    }

    /// Task control byte.
    pub fn task_ctrl(&self) -> (r: u8)
        requires
            self.packet@.len() >= MIN_FRAME_LEN + 2,
        ensures
            r == spec_payload(self.packet@)[1],
    {
        payload_u8(&self.packet, 1)
    }

    /// Control byte.
    pub fn ctrl(&self) -> (r: u8)
        requires
            self.packet@.len() >= MIN_FRAME_LEN + 3,
        ensures
            r == spec_payload(self.packet@)[2],
    {
        payload_u8(&self.packet, 2)
    }

    /// Yaw angle.
    pub fn yaw_degree(&self) -> (r: i16)
        requires
            self.packet@.len() >= MIN_FRAME_LEN + 5,
        ensures
            r == le_i16(self.packet@[14], self.packet@[15]),
    {
        payload_i16(&self.packet, 3)
    }

    /// Roll angle.
    pub fn roll_degree(&self) -> (r: i16)
        requires
            self.packet@.len() >= MIN_FRAME_LEN + 7,
        ensures
            r == le_i16(self.packet@[16], self.packet@[17]),
    {
        payload_i16(&self.packet, 5)
    }

    /// Pitch angle.
    pub fn pitch_degree(&self) -> (r: i16)
        requires
            self.packet@.len() >= MIN_FRAME_LEN + 9,
        ensures
            r == le_i16(self.packet@[18], self.packet@[19]),
    {
        payload_i16(&self.packet, 7)
    }

    /// Allowed deviation.
    pub fn deviation(&self) -> (r: i16)
        requires
            self.packet@.len() >= MIN_FRAME_LEN + 11,
        ensures
            r == le_i16(self.packet@[20], self.packet@[21]),
    {
        payload_i16(&self.packet, 9)
    }

    /// Yaw acceleration.
    pub fn yaw_accel(&self) -> (r: u16)
        requires
            self.packet@.len() >= MIN_FRAME_LEN + 13,
        ensures
            r == le_u16_at(self.packet@, 22),
    {
        payload_u16(&self.packet, 11)
    }

    /// Roll acceleration.
    pub fn roll_accel(&self) -> (r: u16)
        requires
            self.packet@.len() >= MIN_FRAME_LEN + 15,
        ensures
            r == le_u16_at(self.packet@, 24),
    {
        payload_u16(&self.packet, 13)
    }

    /// Pitch acceleration.
    pub fn pitch_accel(&self) -> (r: u16)
        requires
            self.packet@.len() >= MIN_FRAME_LEN + 17,
        ensures
            r == le_u16_at(self.packet@, 26),
    {
        payload_u16(&self.packet, 15)
    }

    /// Whether the frame is valid and carries this command, with a payload
    /// of 17 bytes.
    pub fn is_valid(&self) -> (r: bool)
        ensures
            r == ({
                let b = self.packet@;
                &&& spec_frame_valid(b)
                &&& b[9] == CommandSetType::RM.spec_value()
                &&& b[10] == RMCommandType::GIMBAL_DEGREE_SET.spec_value()
                &&& spec_payload(b).len() == 17
            }),
    {
        self.packet.is_valid() && self.packet.cmd_set() == CommandSetType::RM.value()
            && self.packet.cmd_id() == RMCommandType::GIMBAL_DEGREE_SET.value()
            && self.packet.payload().len() == 17
    }
}

impl<T: FrameBufferMut> GimbalSetDegreeView<T> {
    /// Stores the task id.
    pub fn set_task_id(&mut self, task_id: u8)
        requires
            old(self).packet@.len() >= MIN_FRAME_LEN + 1,
        ensures
            final(self).packet@ == old(self).packet@.update(11, task_id),
    {
        set_payload_u8(&mut self.packet, 0, task_id);
    }

    /// Stores the task control byte.
    pub fn set_task_ctrl(&mut self, task_ctrl: u8)
        requires
            old(self).packet@.len() >= MIN_FRAME_LEN + 2,
        ensures
            final(self).packet@ == old(self).packet@.update(12, task_ctrl),
    {
        set_payload_u8(&mut self.packet, 1, task_ctrl);
    }

    /// Stores the control byte.
    pub fn set_ctrl(&mut self, ctrl: u8)
        requires
            old(self).packet@.len() >= MIN_FRAME_LEN + 3,
        ensures
            final(self).packet@ == old(self).packet@.update(13, ctrl),
    {
        set_payload_u8(&mut self.packet, 2, ctrl);
    }

    /// Stores the yaw angle.
    pub fn set_yaw_degree(&mut self, yaw_degree: i16)
        requires
            old(self).packet@.len() >= MIN_FRAME_LEN + 5,
        ensures
            final(self).packet@ == old(self).packet@.update(14, (i16_bits(yaw_degree) % 256) as u8)
                .update(15, (i16_bits(yaw_degree) / 256) as u8),
    {
        set_payload_i16(&mut self.packet, 3, yaw_degree);
    }

    /// Stores the roll angle.
    pub fn set_roll_degree(&mut self, roll_degree: i16)
        requires
            old(self).packet@.len() >= MIN_FRAME_LEN + 7,
        ensures
            final(self).packet@ == old(self).packet@.update(16, (i16_bits(roll_degree) % 256) as u8)
                .update(17, (i16_bits(roll_degree) / 256) as u8),
    {
        set_payload_i16(&mut self.packet, 5, roll_degree);
    }

    /// Stores the pitch angle.
    pub fn set_pitch_degree(&mut self, pitch_degree: i16)
        requires
            old(self).packet@.len() >= MIN_FRAME_LEN + 9,
        ensures
            final(self).packet@ == old(self).packet@
                .update(18, (i16_bits(pitch_degree) % 256) as u8)
                .update(19, (i16_bits(pitch_degree) / 256) as u8),
    {
        set_payload_i16(&mut self.packet, 7, pitch_degree);
    }

    /// Stores the allowed deviation.
    pub fn set_deviation(&mut self, deviation: i16)
        requires
            old(self).packet@.len() >= MIN_FRAME_LEN + 11,
        ensures
            final(self).packet@ == old(self).packet@.update(20, (i16_bits(deviation) % 256) as u8)
                .update(21, (i16_bits(deviation) / 256) as u8),
    {
        set_payload_i16(&mut self.packet, 9, deviation);
    }

    /// Stores the yaw acceleration.
    pub fn set_yaw_accel(&mut self, yaw_accel: u16)
        requires
            old(self).packet@.len() >= MIN_FRAME_LEN + 13,
        ensures
            final(self).packet@ == old(self).packet@.update(22, (yaw_accel % 256) as u8)
                .update(23, (yaw_accel / 256) as u8),
    {
        set_payload_u16(&mut self.packet, 11, yaw_accel);
    }

    /// Stores the roll acceleration.
    pub fn set_roll_accel(&mut self, roll_accel: u16)
        requires
            old(self).packet@.len() >= MIN_FRAME_LEN + 15,
        ensures
            final(self).packet@ == old(self).packet@.update(24, (roll_accel % 256) as u8)
                .update(25, (roll_accel / 256) as u8),
    {
        set_payload_u16(&mut self.packet, 13, roll_accel);
    }

    /// Stores the pitch acceleration.
    pub fn set_pitch_accel(&mut self, pitch_accel: u16)
        requires
            old(self).packet@.len() >= MIN_FRAME_LEN + 17,
        ensures
            final(self).packet@ == old(self).packet@.update(26, (pitch_accel % 256) as u8)
                .update(27, (pitch_accel / 256) as u8),
    {
        set_payload_u16(&mut self.packet, 15, pitch_accel);
    }

    /// The underlying frame, for editing its header and checksums.
    pub fn packet_mut(&mut self) -> (r: &mut RMWireFrameView<T>)
        ensures
            *r == old(self).packet,
            final(self).packet == *final(r),
    {
        &mut self.packet
    }
}

/// Gimbal work mode command of the gimbal command set: a mode byte and a
/// command byte that is always 0.
pub struct GimbalWorkModeSetView<T> {
    pub packet: RMWireFrameView<T>,
}

impl<T: FrameBuffer> GimbalWorkModeSetView<T> {
    pub fn new(packet: RMWireFrameView<T>) -> (r: Self)
        ensures
            r.packet@ == packet@,
    {
        GimbalWorkModeSetView { packet }
    }

    /// The requested mode; values that name no mode read as `Unknown`.
    pub fn mode(&self) -> (r: GimbalMode)
        requires
            self.packet@.len() >= MIN_FRAME_LEN + 1,
        ensures
            r == GimbalMode::spec_from_wire(spec_payload(self.packet@)[0]),
    {
        let v = payload_u8(&self.packet, 0);
        if v == 0x00 {
            GimbalMode::Free
        } else if v == 0x01 {
            GimbalMode::FPV
        } else if v == 0x02 {
            GimbalMode::Follow
        } else {
            GimbalMode::Unknown
        }
    }

    /// The command byte.
    pub fn cmd(&self) -> (r: u8)
        requires
            self.packet@.len() >= MIN_FRAME_LEN + 2,
        ensures
            r == spec_payload(self.packet@)[1],
    {
        payload_u8(&self.packet, 1)
    }

    /// Whether the frame is valid and carries this command, with a payload
    /// of 2 bytes whose
    /// command byte is 0.
    pub fn is_valid(&self) -> (r: bool)
        ensures
            r == ({
                let b = self.packet@;
                &&& spec_frame_valid(b)
                &&& b[9] == CommandSetType::GIMBAL.spec_value()
                &&& b[10] == GimbalCommandType::GIMBAL_SET_MODE.spec_value()
                &&& spec_payload(b).len() == 2
                &&& spec_payload(b)[1] == 0
            }),
    {
        self.packet.is_valid() && self.packet.cmd_set() == CommandSetType::GIMBAL.value()
            && self.packet.cmd_id() == GimbalCommandType::GIMBAL_SET_MODE.value()
            && self.packet.payload().len() == 2
            && self.cmd() == 0
    }
}

impl<T: FrameBufferMut> GimbalWorkModeSetView<T> {
    /// Stores the mode byte.
    pub fn set_mode(&mut self, work_mode: u8)
        requires
            old(self).packet@.len() >= MIN_FRAME_LEN + 1,
        ensures
            final(self).packet@ == old(self).packet@.update(11, work_mode),
    {
        set_payload_u8(&mut self.packet, 0, work_mode);
    }

    /// Stores the command byte.
    pub fn set_cmd(&mut self, cmd: u8)
        requires
            old(self).packet@.len() >= MIN_FRAME_LEN + 2,
        ensures
            final(self).packet@ == old(self).packet@.update(12, cmd),
    {
        set_payload_u8(&mut self.packet, 1, cmd);
    }
}

} // verus!
