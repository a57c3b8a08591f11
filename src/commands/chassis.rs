//! Chassis commands of the RM command set.

use vstd::prelude::*;
use crate::commands::{
    le_u32_at, payload_u32, payload_u8, set_payload_u32, set_payload_u8,
};
use crate::duss::cmd_set_rm::RMCommandType;
use crate::duss::cmd_set_types::CommandSetType;
use crate::wire::{
    spec_frame_valid, spec_payload, FrameBuffer, FrameBufferMut, RMWireFrameView, MIN_FRAME_LEN,
};

verus! {

/// Chassis speed command: x, y and rotation speed as three little-endian
/// 32-bit floats, handled here by their bits.
pub struct SpeedSetView<T> {
    pub packet: RMWireFrameView<T>,
}

impl<T: FrameBuffer> SpeedSetView<T> {
    pub fn new(packet: RMWireFrameView<T>) -> (r: Self)
        ensures
            r.packet@ == packet@,
    {
        SpeedSetView { packet }
    }

    /// Bits of the x speed.
    pub fn x_bits(&self) -> (r: u32)
        requires
            self.packet@.len() >= MIN_FRAME_LEN + 4,
        ensures
            r == le_u32_at(self.packet@, 11),
    {
        payload_u32(&self.packet, 0)
    }

    /// Bits of the y speed.
    pub fn y_bits(&self) -> (r: u32)
        requires
            self.packet@.len() >= MIN_FRAME_LEN + 8,
        ensures
            r == le_u32_at(self.packet@, 15),
    {
        payload_u32(&self.packet, 4)
    }

    /// Bits of the rotation speed.
    pub fn omega_bits(&self) -> (r: u32)
        requires
            self.packet@.len() >= MIN_FRAME_LEN + 12,
        ensures
            r == le_u32_at(self.packet@, 19),
    {
        payload_u32(&self.packet, 8)
    }

    /// Whether the frame is valid and carries this command, with a payload
    /// of 12 bytes.
    pub fn is_valid(&self) -> (r: bool)
        ensures
            r == ({
                let b = self.packet@;
                &&& spec_frame_valid(b)
                &&& b[9] == CommandSetType::RM.spec_value()
                &&& b[10] == RMCommandType::SPEED_SET.spec_value()
                &&& spec_payload(b).len() == 12
            }),
    {
        self.packet.is_valid() && self.packet.cmd_set() == CommandSetType::RM.value()
            && self.packet.cmd_id() == RMCommandType::SPEED_SET.value()
            && self.packet.payload().len() == 12
    }
}

impl<T: FrameBufferMut> SpeedSetView<T> {
    /// Stores the bits of the x speed.
    pub fn set_x_bits(&mut self, x: u32)
        requires
            old(self).packet@.len() >= MIN_FRAME_LEN + 4,
        ensures
            final(self).packet@ == old(self).packet@.update(11, (x % 256) as u8)
                .update(12, (x / 256 % 256) as u8)
                .update(13, (x / 65536 % 256) as u8)
                .update(14, (x / 16777216) as u8),
    {
        set_payload_u32(&mut self.packet, 0, x);
    }

    /// Stores the bits of the y speed.
    pub fn set_y_bits(&mut self, y: u32)
        requires
            old(self).packet@.len() >= MIN_FRAME_LEN + 8,
        ensures
            final(self).packet@ == old(self).packet@.update(15, (y % 256) as u8)
                .update(16, (y / 256 % 256) as u8)
                .update(17, (y / 65536 % 256) as u8)
                .update(18, (y / 16777216) as u8),
    {
        set_payload_u32(&mut self.packet, 4, y);
    }

    /// Stores the bits of the rotation speed.
    pub fn set_omega_bits(&mut self, omega: u32)
        requires
            old(self).packet@.len() >= MIN_FRAME_LEN + 12,
        ensures
            final(self).packet@ == old(self).packet@.update(19, (omega % 256) as u8)
                .update(20, (omega / 256 % 256) as u8)
                .update(21, (omega / 65536 % 256) as u8)
                .update(22, (omega / 16777216) as u8),
    {
        set_payload_u32(&mut self.packet, 8, omega);
    }
}

/// Chassis work mode command: one mode byte.
pub struct ChassisWorkModeSetView<T> {
    pub packet: RMWireFrameView<T>,
}

impl<T: FrameBuffer> ChassisWorkModeSetView<T> {
    pub fn new(packet: RMWireFrameView<T>) -> (r: Self)
        ensures
            r.packet@ == packet@,
    {
        ChassisWorkModeSetView { packet }
    }

    /// The requested work mode; 1 is SDK mode.
    pub fn work_mode(&self) -> (r: u8)
        requires
            self.packet@.len() >= MIN_FRAME_LEN + 1,
        ensures
            r == spec_payload(self.packet@)[0],
    {
        payload_u8(&self.packet, 0)
    }
}

impl<T: FrameBufferMut> ChassisWorkModeSetView<T> {
    /// Stores the work mode.
    pub fn set_work_mode(&mut self, work_mode: u8)
        requires
            old(self).packet@.len() >= MIN_FRAME_LEN + 1,
        ensures
            final(self).packet@ == old(self).packet@.update(11, work_mode),
    {
        set_payload_u8(&mut self.packet, 0, work_mode);
    }
}

} // verus!
