//! Command ids of the gimbal command set.

use vstd::prelude::*;

verus! {

/// A command of the gimbal command set.
#[allow(non_camel_case_types)]
#[derive(Debug, Clone, Copy, PartialEq, Eq, Structural)]
pub enum GimbalCommandType {
    GIMBAL_RESERVED,
    GIMBAL_CONTROL,
    GIMBAL_GET_POSITION,
    GIMBAL_SET_PARAM,
    GIMBAL_GET_PARAM,
    GIMBAL_PUSH_POSITION,
    GIMBAL_PUSH_AETR,
    GIMBAL_ADJUST_ROLL,
    GIMBAL_CALIBRATION,
    GIMBAL_RESERVED2,
    GIMBAL_EXT_CTRL_DEGREE,
    GIMBAL_GET_EXT_CTRL_STATUS,
    GIMBAL_EXT_CTRL_ACCEL,
    GIMBAL_SUSPEND_RESUME,
    GIMBAL_THIRDP_MAGN,
    GIMBAL_SET_USER_PARAM,
    GIMBAL_GET_USER_PARAM,
    GIMBAL_SAVE_USER_PARAM,
    GIMBAL_RESUME_DEFAULT_PARAM,
    GIMBAL_PUSH_TYPE,
    GIMBAL_DEGREE_INFO_SUBSCRIPTION,
    GIMBAL_LOCK,
    GIMBAL_ROTATE_CAMERA_X_AXIS,
    GIMBAL_GET_TEMP,
    GIMBAL_SET_MODE,
    GIMBAL_ROTATE_EXP_CMD,
    GIMBAL_SET_ANGLES,
}

impl GimbalCommandType {
    /// The wire value.
    pub open spec fn spec_value(self) -> u8 {
        match self {
            GimbalCommandType::GIMBAL_RESERVED => 0x00,
            GimbalCommandType::GIMBAL_CONTROL => 0x01,
            GimbalCommandType::GIMBAL_GET_POSITION => 0x02,
            GimbalCommandType::GIMBAL_SET_PARAM => 0x03,
            GimbalCommandType::GIMBAL_GET_PARAM => 0x04,
            GimbalCommandType::GIMBAL_PUSH_POSITION => 0x05,
            GimbalCommandType::GIMBAL_PUSH_AETR => 0x06,
            GimbalCommandType::GIMBAL_ADJUST_ROLL => 0x07,
            GimbalCommandType::GIMBAL_CALIBRATION => 0x08,
            GimbalCommandType::GIMBAL_RESERVED2 => 0x09,
            GimbalCommandType::GIMBAL_EXT_CTRL_DEGREE => 0x0a,
            GimbalCommandType::GIMBAL_GET_EXT_CTRL_STATUS => 0x0b,
            GimbalCommandType::GIMBAL_EXT_CTRL_ACCEL => 0x0c,
            GimbalCommandType::GIMBAL_SUSPEND_RESUME => 0x0d,
            GimbalCommandType::GIMBAL_THIRDP_MAGN => 0x0e,
            GimbalCommandType::GIMBAL_SET_USER_PARAM => 0x0f,
            GimbalCommandType::GIMBAL_GET_USER_PARAM => 0x10,
            GimbalCommandType::GIMBAL_SAVE_USER_PARAM => 0x11,
            GimbalCommandType::GIMBAL_RESUME_DEFAULT_PARAM => 0x13,
            GimbalCommandType::GIMBAL_PUSH_TYPE => 0x1c,
            GimbalCommandType::GIMBAL_DEGREE_INFO_SUBSCRIPTION => 0x1e,
            GimbalCommandType::GIMBAL_LOCK => 0x39,
            GimbalCommandType::GIMBAL_ROTATE_CAMERA_X_AXIS => 0x3a,
            GimbalCommandType::GIMBAL_GET_TEMP => 0x45,
            GimbalCommandType::GIMBAL_SET_MODE => 0x4c,
            GimbalCommandType::GIMBAL_ROTATE_EXP_CMD => 0x68,
            GimbalCommandType::GIMBAL_SET_ANGLES => 0x69,
        }
    }

    pub fn value(self) -> (r: u8)
        ensures
            r == self.spec_value(),
    {
        match self {
            GimbalCommandType::GIMBAL_RESERVED => 0x00,
            GimbalCommandType::GIMBAL_CONTROL => 0x01,
            GimbalCommandType::GIMBAL_GET_POSITION => 0x02,
            GimbalCommandType::GIMBAL_SET_PARAM => 0x03,
            GimbalCommandType::GIMBAL_GET_PARAM => 0x04,
            GimbalCommandType::GIMBAL_PUSH_POSITION => 0x05,
            GimbalCommandType::GIMBAL_PUSH_AETR => 0x06,
            GimbalCommandType::GIMBAL_ADJUST_ROLL => 0x07,
            GimbalCommandType::GIMBAL_CALIBRATION => 0x08,
            GimbalCommandType::GIMBAL_RESERVED2 => 0x09,
            GimbalCommandType::GIMBAL_EXT_CTRL_DEGREE => 0x0a,
            GimbalCommandType::GIMBAL_GET_EXT_CTRL_STATUS => 0x0b,
            GimbalCommandType::GIMBAL_EXT_CTRL_ACCEL => 0x0c,
            GimbalCommandType::GIMBAL_SUSPEND_RESUME => 0x0d,
            GimbalCommandType::GIMBAL_THIRDP_MAGN => 0x0e,
            GimbalCommandType::GIMBAL_SET_USER_PARAM => 0x0f,
            GimbalCommandType::GIMBAL_GET_USER_PARAM => 0x10,
            GimbalCommandType::GIMBAL_SAVE_USER_PARAM => 0x11,
            GimbalCommandType::GIMBAL_RESUME_DEFAULT_PARAM => 0x13,
            GimbalCommandType::GIMBAL_PUSH_TYPE => 0x1c,
            GimbalCommandType::GIMBAL_DEGREE_INFO_SUBSCRIPTION => 0x1e,
            GimbalCommandType::GIMBAL_LOCK => 0x39,
            GimbalCommandType::GIMBAL_ROTATE_CAMERA_X_AXIS => 0x3a,
            GimbalCommandType::GIMBAL_GET_TEMP => 0x45,
            GimbalCommandType::GIMBAL_SET_MODE => 0x4c,
            GimbalCommandType::GIMBAL_ROTATE_EXP_CMD => 0x68,
            GimbalCommandType::GIMBAL_SET_ANGLES => 0x69,
        }
    }

    /// The variant with wire value `v`, if there is one.
    pub fn try_from_value(v: u8) -> (r: Option<GimbalCommandType>)
        ensures
            r is Some ==> r->0.spec_value() == v,
            r is None ==> forall|e: GimbalCommandType| e.spec_value() != v,
    {
        match v {
            0x00 => Some(GimbalCommandType::GIMBAL_RESERVED),
            0x01 => Some(GimbalCommandType::GIMBAL_CONTROL),
            0x02 => Some(GimbalCommandType::GIMBAL_GET_POSITION),
            0x03 => Some(GimbalCommandType::GIMBAL_SET_PARAM),
            0x04 => Some(GimbalCommandType::GIMBAL_GET_PARAM),
            0x05 => Some(GimbalCommandType::GIMBAL_PUSH_POSITION),
            0x06 => Some(GimbalCommandType::GIMBAL_PUSH_AETR),
            0x07 => Some(GimbalCommandType::GIMBAL_ADJUST_ROLL),
            0x08 => Some(GimbalCommandType::GIMBAL_CALIBRATION),
            0x09 => Some(GimbalCommandType::GIMBAL_RESERVED2),
            0x0a => Some(GimbalCommandType::GIMBAL_EXT_CTRL_DEGREE),
            0x0b => Some(GimbalCommandType::GIMBAL_GET_EXT_CTRL_STATUS),
            0x0c => Some(GimbalCommandType::GIMBAL_EXT_CTRL_ACCEL),
            0x0d => Some(GimbalCommandType::GIMBAL_SUSPEND_RESUME),
            0x0e => Some(GimbalCommandType::GIMBAL_THIRDP_MAGN),
            0x0f => Some(GimbalCommandType::GIMBAL_SET_USER_PARAM),
            0x10 => Some(GimbalCommandType::GIMBAL_GET_USER_PARAM),
            0x11 => Some(GimbalCommandType::GIMBAL_SAVE_USER_PARAM),
            0x13 => Some(GimbalCommandType::GIMBAL_RESUME_DEFAULT_PARAM),
            0x1c => Some(GimbalCommandType::GIMBAL_PUSH_TYPE),
            0x1e => Some(GimbalCommandType::GIMBAL_DEGREE_INFO_SUBSCRIPTION),
            0x39 => Some(GimbalCommandType::GIMBAL_LOCK),
            0x3a => Some(GimbalCommandType::GIMBAL_ROTATE_CAMERA_X_AXIS),
            0x45 => Some(GimbalCommandType::GIMBAL_GET_TEMP),
            0x4c => Some(GimbalCommandType::GIMBAL_SET_MODE),
            0x68 => Some(GimbalCommandType::GIMBAL_ROTATE_EXP_CMD),
            0x69 => Some(GimbalCommandType::GIMBAL_SET_ANGLES),
            _ => None,
        }
    }
}

} // verus!
