//! The VBUS (DDS) publish/subscribe protocol, carried in frames of its own
//! command set.

use vstd::prelude::*;

pub mod topic_view;
pub mod topics;

verus! {

/// Command set of the VBUS protocol.
pub const CMDSET_VBUS: u8 = 0x48;

pub const CMDID_VBUS_RESET_NODE: u8 = 0x02;

pub const CMDID_VBUS_ADD_SUB: u8 = 0x03;

pub const CMDID_VBUS_DEL_SUB: u8 = 0x04;

pub const CMDID_VBUS_PUSH_MSG: u8 = 0x08;

/// Command set of the protocol under its DDS name.
pub const CMDSET_DDS: u8 = 0x48;

pub const CMDID_DDS_RESET_NODE: u8 = 0x02;

pub const CMDID_DDS_ADD_SUB: u8 = 0x03;

pub const CMDID_DDS_DEL_SUB: u8 = 0x04;

pub const CMDID_DDS_PUSH_MSG: u8 = 0x08;

/// Commands of the VBUS protocol.
#[allow(non_camel_case_types)]
#[derive(Debug, Clone, Copy, PartialEq, Eq, Structural)]
pub enum VBusCmd {
    ADD_NODE,
    NODE_RESET,
    ADD_MSG,
    DEL_MSG,
    QUERY_CONF,
    SET_PUSH_FREQ,
    PUSH_CTRL,
    DATA_ANALYSIS,
}

impl VBusCmd {
    /// The wire value.
    pub open spec fn spec_value(self) -> u8 {
        match self {
            VBusCmd::ADD_NODE => 0x01,
            VBusCmd::NODE_RESET => 0x02,
            VBusCmd::ADD_MSG => 0x03,
            VBusCmd::DEL_MSG => 0x04,
            VBusCmd::QUERY_CONF => 0x05,
            VBusCmd::SET_PUSH_FREQ => 0x06,
            VBusCmd::PUSH_CTRL => 0x07,
            VBusCmd::DATA_ANALYSIS => 0x08,
        }
    }

    pub fn value(self) -> (r: u8)
        ensures
            r == self.spec_value(),
    {
        match self {
            VBusCmd::ADD_NODE => 0x01,
            VBusCmd::NODE_RESET => 0x02,
            VBusCmd::ADD_MSG => 0x03,
            VBusCmd::DEL_MSG => 0x04,
            VBusCmd::QUERY_CONF => 0x05,
            VBusCmd::SET_PUSH_FREQ => 0x06,
            VBusCmd::PUSH_CTRL => 0x07,
            VBusCmd::DATA_ANALYSIS => 0x08,
        }
    }
}

} // verus!
