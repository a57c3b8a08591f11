//! DUML command sets, the value of byte 9 of a frame.

use vstd::prelude::*;

verus! {

/// A command set.
#[allow(non_camel_case_types)]
#[derive(Debug, Clone, Copy, PartialEq, Eq, Structural)]
pub enum CommandSetType {
    COMMON,
    SPECIAL,
    CAMERA,
    FC,
    GIMBAL,
    CENTER,
    RC,
    WIFI,
    DM368,
    HDVT,
    VISION,
    SIM,
    ESC,
    SMART_BATTERY,
    HDVT_1765_GND,
    S_TO_P_AIR,
    S_TO_P_GND,
    ADSB,
    BVISION,
    FPGA_AIR,
    FPGA_GND,
    GLASS,
    MAVLINK,
    WATCH,
    PERCEPTION,
    ROBOTIC_ARM,
    RM,
    VIRTUAL_BUS,
    MAX,
}

impl CommandSetType {
    /// The wire value.
    pub open spec fn spec_value(self) -> u8 {
        match self {
            CommandSetType::COMMON => 0x00,
            CommandSetType::SPECIAL => 0x01,
            CommandSetType::CAMERA => 0x02,
            CommandSetType::FC => 0x03,
            CommandSetType::GIMBAL => 0x04,
            CommandSetType::CENTER => 0x05,
            CommandSetType::RC => 0x06,
            CommandSetType::WIFI => 0x07,
            CommandSetType::DM368 => 0x08,
            CommandSetType::HDVT => 0x09,
            CommandSetType::VISION => 0x0a,
            CommandSetType::SIM => 0x0b,
            CommandSetType::ESC => 0x0c,
            CommandSetType::SMART_BATTERY => 0x0d,
            CommandSetType::HDVT_1765_GND => 0x0e,
            CommandSetType::S_TO_P_AIR => 0x0f,
            CommandSetType::S_TO_P_GND => 0x10,
            CommandSetType::ADSB => 0x11,
            CommandSetType::BVISION => 0x12,
            CommandSetType::FPGA_AIR => 0x13,
            CommandSetType::FPGA_GND => 0x14,
            CommandSetType::GLASS => 0x15,
            CommandSetType::MAVLINK => 0x16,
            CommandSetType::WATCH => 0x17,
            CommandSetType::PERCEPTION => 0x24,
            CommandSetType::ROBOTIC_ARM => 0x33,
            CommandSetType::RM => 0x3f,
            CommandSetType::VIRTUAL_BUS => 0x48,
            CommandSetType::MAX => 0x21,
        }
    }

    pub fn value(self) -> (r: u8)
        ensures
            r == self.spec_value(),
    {
        match self {
            CommandSetType::COMMON => 0x00,
            CommandSetType::SPECIAL => 0x01,
            CommandSetType::CAMERA => 0x02,
            CommandSetType::FC => 0x03,
            CommandSetType::GIMBAL => 0x04,
            CommandSetType::CENTER => 0x05,
            CommandSetType::RC => 0x06,
            CommandSetType::WIFI => 0x07,
            CommandSetType::DM368 => 0x08,
            CommandSetType::HDVT => 0x09,
            CommandSetType::VISION => 0x0a,
            CommandSetType::SIM => 0x0b,
            CommandSetType::ESC => 0x0c,
            CommandSetType::SMART_BATTERY => 0x0d,
            CommandSetType::HDVT_1765_GND => 0x0e,
            CommandSetType::S_TO_P_AIR => 0x0f,
            CommandSetType::S_TO_P_GND => 0x10,
            CommandSetType::ADSB => 0x11,
            CommandSetType::BVISION => 0x12,
            CommandSetType::FPGA_AIR => 0x13,
            CommandSetType::FPGA_GND => 0x14,
            CommandSetType::GLASS => 0x15,
            CommandSetType::MAVLINK => 0x16,
            CommandSetType::WATCH => 0x17,
            CommandSetType::PERCEPTION => 0x24,
            CommandSetType::ROBOTIC_ARM => 0x33,
            CommandSetType::RM => 0x3f,
            CommandSetType::VIRTUAL_BUS => 0x48,
            CommandSetType::MAX => 0x21,
        }
    }

    /// The variant with wire value `v`, if there is one.
    pub fn try_from_value(v: u8) -> (r: Option<CommandSetType>)
        ensures
            r is Some ==> r->0.spec_value() == v,
            r is None ==> forall|e: CommandSetType| e.spec_value() != v,
    {
        match v {
            0x00 => Some(CommandSetType::COMMON),
            0x01 => Some(CommandSetType::SPECIAL),
            0x02 => Some(CommandSetType::CAMERA),
            0x03 => Some(CommandSetType::FC),
            0x04 => Some(CommandSetType::GIMBAL),
            0x05 => Some(CommandSetType::CENTER),
            0x06 => Some(CommandSetType::RC),
            0x07 => Some(CommandSetType::WIFI),
            0x08 => Some(CommandSetType::DM368),
            0x09 => Some(CommandSetType::HDVT),
            0x0a => Some(CommandSetType::VISION),
            0x0b => Some(CommandSetType::SIM),
            0x0c => Some(CommandSetType::ESC),
            0x0d => Some(CommandSetType::SMART_BATTERY),
            0x0e => Some(CommandSetType::HDVT_1765_GND),
            0x0f => Some(CommandSetType::S_TO_P_AIR),
            0x10 => Some(CommandSetType::S_TO_P_GND),
            0x11 => Some(CommandSetType::ADSB),
            0x12 => Some(CommandSetType::BVISION),
            0x13 => Some(CommandSetType::FPGA_AIR),
            0x14 => Some(CommandSetType::FPGA_GND),
            0x15 => Some(CommandSetType::GLASS),
            0x16 => Some(CommandSetType::MAVLINK),
            0x17 => Some(CommandSetType::WATCH),
            0x24 => Some(CommandSetType::PERCEPTION),
            0x33 => Some(CommandSetType::ROBOTIC_ARM),
            0x3f => Some(CommandSetType::RM),
            0x48 => Some(CommandSetType::VIRTUAL_BUS),
            0x21 => Some(CommandSetType::MAX),
            _ => None,
        }
    }
}

} // verus!
