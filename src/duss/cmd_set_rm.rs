//! Command ids of the RM command set.

use vstd::prelude::*;

verus! {

/// A command of the RM command set.
#[allow(non_camel_case_types)]
#[derive(Debug, Clone, Copy, PartialEq, Eq, Structural)]
pub enum RMCommandType {
    HIT_EVENT,
    SPECIAL_CONTROL,
    WATER_GUN_PARM_SET,
    ARMOR_VOICE_PARAMS_SET,
    GAME_STATE_SYNC,
    GAMECTRL_CMD,
    GAME_GROUP_CONFIG,
    GAME_START_END_CONFIG,
    SKILL_SEND,
    IR_EVENT,
    BLOOD_LED_SET,
    MODULE_STATUS_PUSH,
    WORK_MODE_SET,
    PLAY_SOUND,
    SET_SPEAKER_VOLUME,
    GET_SPEAKER_VOLUME,
    AUDIO_TO_APP,
    SET_AUDIO_STATUS,
    WHEEL_SPEED_SET,
    SPEED_SET,
    FOLLOW_MODE_SET,
    FPV_MODE_SPEED_SET,
    GROUND_MODE_SET,
    POSITION_SET,
    WHEEL_STATUS_SET,
    WHEEL_STATUS_GET,
    SPEED_MODE_SET,
    CHASSIS_POSITION_TASK_PUSH,
    SET_CHASSIS_PWM_FREQ,
    GET_CHASSIS_PWM_FREQ,
    ARMOR_GET_STATE,
    ARMOR_LED_SET,
    LED_COLOR_SET,
    SET_CHASSIS_PWM_VALUE,
    GET_CHASSIS_PWM_VALUE,
    SET_CHASSIS_SPEED,
    SET_TANK_WORK_MODE,
    GET_TANK_WORK_MODE,
    EXIT_LOW_POWER_MODE,
    SHOOT_EVENT,
    SHOOT_CMD,
    SHOOT_GET_STATE,
    SHOOT_MODE_SET,
    SHOOT_MODE_GET,
    GUN_LED_SET,
    FC_RMC,
    FC_GET_STATE,
    SCRIPT_DOWNLOAD_DATA,
    SCRIPT_DOWNLOAD_FINSH,
    SCRIPT_CTRL,
    SCRIPT_CUSTOM_INFO_PUSH,
    SCRIPT_BLOCK_STATUS_PUSH,
    SCRIPT_PARAMS_INFO_PUSH,
    SCRIPT_LOG_INFO,
    CUSTOM_SKILL_CONFIG_QUERY,
    SCRIPT_LOCAL_SUB_SERVICE,
    SUB_MOBILE_INFO,
    MOBILE_INFO_PUSH,
    SCRATCH_AUTO_TEST,
    GIMBAL_DEGREE_SET,
    GIMBAL_POSITION_TASK_PUSH,
    GIMBAL_RESET_POSITION_SET,
    PLAY_SOUND_TASK,
    PLAY_SOUND_TASK_PUSH,
    ROBOTIC_ARM_POSITION_TASK_SET,
    ROBOTIC_ARM_POSITION_TASK_PUSH,
    SERVO_ANGLE_TASK_SET,
    SERVO_ANGLE_TASK_PUSH,
    CUSTOM_UI_ATTRIBUTE_SET,
    CUSTOM_UI_ACTION_TRIGGER,
    CUSTOM_SOUND_CONVERT,
    LINK_STATE_PUSH,
    SDK_MODE_SET,
    STREAM_CTRL,
    UART_CONFIG,
    UART_MSG,
    UART_STATUS_PUSH,
    MEDIA_SOUND_RECOGNIZE_SET,
    MEDIA_SOUND_RECOGNIZE_PUSH,
    MEDIA_CAMERA_BRIGHTNESS_GET,
    GET_SENSOR_ADAPTER_DATA,
    SET_SENSOR_ADAPTER_PARAM,
    GET_SENSOR_ADAPTER_PARAM,
    PUSH_SENSOR_ADAPTER_IO_EVENT,
    PUSH_SENSOR_ADAPTER_ADC_VALUE,
    PRODUCT_ATTRIBUTE_GET,
}

impl RMCommandType {
    /// The wire value.
    pub open spec fn spec_value(self) -> u8 {
        match self {
            RMCommandType::HIT_EVENT => 0x02,
            RMCommandType::SPECIAL_CONTROL => 0x04,
            RMCommandType::WATER_GUN_PARM_SET => 0x05,
            RMCommandType::ARMOR_VOICE_PARAMS_SET => 0x07,
            RMCommandType::GAME_STATE_SYNC => 0x09,
            RMCommandType::GAMECTRL_CMD => 0x0a,
            RMCommandType::GAME_GROUP_CONFIG => 0x0b,
            RMCommandType::GAME_START_END_CONFIG => 0x0c,
            RMCommandType::SKILL_SEND => 0x0f,
            RMCommandType::IR_EVENT => 0x10,
            RMCommandType::BLOOD_LED_SET => 0x11,
            RMCommandType::MODULE_STATUS_PUSH => 0x12,
            RMCommandType::WORK_MODE_SET => 0x19,
            RMCommandType::PLAY_SOUND => 0x1a,
            RMCommandType::SET_SPEAKER_VOLUME => 0x1b,
            RMCommandType::GET_SPEAKER_VOLUME => 0x1c,
            RMCommandType::AUDIO_TO_APP => 0x1d,
            RMCommandType::SET_AUDIO_STATUS => 0x1e,
            RMCommandType::WHEEL_SPEED_SET => 0x20,
            RMCommandType::SPEED_SET => 0x21,
            RMCommandType::FOLLOW_MODE_SET => 0x22,
            RMCommandType::FPV_MODE_SPEED_SET => 0x23,
            RMCommandType::GROUND_MODE_SET => 0x24,
            RMCommandType::POSITION_SET => 0x25,
            RMCommandType::WHEEL_STATUS_SET => 0x26,
            RMCommandType::WHEEL_STATUS_GET => 0x27,
            RMCommandType::SPEED_MODE_SET => 0x28,
            RMCommandType::CHASSIS_POSITION_TASK_PUSH => 0x2a,
            RMCommandType::SET_CHASSIS_PWM_FREQ => 0x2b,
            RMCommandType::GET_CHASSIS_PWM_FREQ => 0x2d,
            RMCommandType::ARMOR_GET_STATE => 0x31,
            RMCommandType::ARMOR_LED_SET => 0x32,
            RMCommandType::LED_COLOR_SET => 0x33,
            RMCommandType::SET_CHASSIS_PWM_VALUE => 0x3c,
            RMCommandType::GET_CHASSIS_PWM_VALUE => 0x3d,
            RMCommandType::SET_CHASSIS_SPEED => 0x3f,
            RMCommandType::SET_TANK_WORK_MODE => 0x46,
            RMCommandType::GET_TANK_WORK_MODE => 0x47,
            RMCommandType::EXIT_LOW_POWER_MODE => 0x4c,
            RMCommandType::SHOOT_EVENT => 0x50,
            RMCommandType::SHOOT_CMD => 0x51,
            RMCommandType::SHOOT_GET_STATE => 0x52,
            RMCommandType::SHOOT_MODE_SET => 0x53,
            RMCommandType::SHOOT_MODE_GET => 0x54,
            RMCommandType::GUN_LED_SET => 0x55,
            RMCommandType::FC_RMC => 0x60,
            RMCommandType::FC_GET_STATE => 0x61,
            RMCommandType::SCRIPT_DOWNLOAD_DATA => 0xa1,
            RMCommandType::SCRIPT_DOWNLOAD_FINSH => 0xa2,
            RMCommandType::SCRIPT_CTRL => 0xa3,
            RMCommandType::SCRIPT_CUSTOM_INFO_PUSH => 0xa4,
            RMCommandType::SCRIPT_BLOCK_STATUS_PUSH => 0xa5,
            RMCommandType::SCRIPT_PARAMS_INFO_PUSH => 0xa6,
            RMCommandType::SCRIPT_LOG_INFO => 0xa7,
            RMCommandType::CUSTOM_SKILL_CONFIG_QUERY => 0xa8,
            RMCommandType::SCRIPT_LOCAL_SUB_SERVICE => 0xa9,
            RMCommandType::SUB_MOBILE_INFO => 0xab,
            RMCommandType::MOBILE_INFO_PUSH => 0xac,
            RMCommandType::SCRATCH_AUTO_TEST => 0xaf,
            RMCommandType::GIMBAL_DEGREE_SET => 0xb0,
            RMCommandType::GIMBAL_POSITION_TASK_PUSH => 0xb1,
            RMCommandType::GIMBAL_RESET_POSITION_SET => 0xb2,
            RMCommandType::PLAY_SOUND_TASK => 0xb3,
            RMCommandType::PLAY_SOUND_TASK_PUSH => 0xb4,
            RMCommandType::ROBOTIC_ARM_POSITION_TASK_SET => 0xb5,
            RMCommandType::ROBOTIC_ARM_POSITION_TASK_PUSH => 0xb6,
            RMCommandType::SERVO_ANGLE_TASK_SET => 0xb7,
            RMCommandType::SERVO_ANGLE_TASK_PUSH => 0xb8,
            RMCommandType::CUSTOM_UI_ATTRIBUTE_SET => 0xba,
            RMCommandType::CUSTOM_UI_ACTION_TRIGGER => 0xbb,
            RMCommandType::CUSTOM_SOUND_CONVERT => 0xbc,
            RMCommandType::LINK_STATE_PUSH => 0xd0,
            RMCommandType::SDK_MODE_SET => 0xd1,
            RMCommandType::STREAM_CTRL => 0xd2,
            RMCommandType::UART_CONFIG => 0xc0,
            RMCommandType::UART_MSG => 0xc1,
            RMCommandType::UART_STATUS_PUSH => 0xc2,
            RMCommandType::MEDIA_SOUND_RECOGNIZE_SET => 0xe3,
            RMCommandType::MEDIA_SOUND_RECOGNIZE_PUSH => 0xe4,
            RMCommandType::MEDIA_CAMERA_BRIGHTNESS_GET => 0xe5,
            RMCommandType::GET_SENSOR_ADAPTER_DATA => 0xf0,
            RMCommandType::SET_SENSOR_ADAPTER_PARAM => 0xf1,
            RMCommandType::GET_SENSOR_ADAPTER_PARAM => 0xf2,
            RMCommandType::PUSH_SENSOR_ADAPTER_IO_EVENT => 0xf3,
            RMCommandType::PUSH_SENSOR_ADAPTER_ADC_VALUE => 0xf4,
            RMCommandType::PRODUCT_ATTRIBUTE_GET => 0xfe,
        }
    }

    pub fn value(self) -> (r: u8)
        ensures
            r == self.spec_value(),
    {
        match self {
            RMCommandType::HIT_EVENT => 0x02,
            RMCommandType::SPECIAL_CONTROL => 0x04,
            RMCommandType::WATER_GUN_PARM_SET => 0x05,
            RMCommandType::ARMOR_VOICE_PARAMS_SET => 0x07,
            RMCommandType::GAME_STATE_SYNC => 0x09,
            RMCommandType::GAMECTRL_CMD => 0x0a,
            RMCommandType::GAME_GROUP_CONFIG => 0x0b,
            RMCommandType::GAME_START_END_CONFIG => 0x0c,
            RMCommandType::SKILL_SEND => 0x0f,
            RMCommandType::IR_EVENT => 0x10,
            RMCommandType::BLOOD_LED_SET => 0x11,
            RMCommandType::MODULE_STATUS_PUSH => 0x12,
            RMCommandType::WORK_MODE_SET => 0x19,
            RMCommandType::PLAY_SOUND => 0x1a,
            RMCommandType::SET_SPEAKER_VOLUME => 0x1b,
            RMCommandType::GET_SPEAKER_VOLUME => 0x1c,
            RMCommandType::AUDIO_TO_APP => 0x1d,
            RMCommandType::SET_AUDIO_STATUS => 0x1e,
            RMCommandType::WHEEL_SPEED_SET => 0x20,
            RMCommandType::SPEED_SET => 0x21,
            RMCommandType::FOLLOW_MODE_SET => 0x22,
            RMCommandType::FPV_MODE_SPEED_SET => 0x23,
            RMCommandType::GROUND_MODE_SET => 0x24,
            RMCommandType::POSITION_SET => 0x25,
            RMCommandType::WHEEL_STATUS_SET => 0x26,
            RMCommandType::WHEEL_STATUS_GET => 0x27,
            RMCommandType::SPEED_MODE_SET => 0x28,
            RMCommandType::CHASSIS_POSITION_TASK_PUSH => 0x2a,
            RMCommandType::SET_CHASSIS_PWM_FREQ => 0x2b,
            RMCommandType::GET_CHASSIS_PWM_FREQ => 0x2d,
            RMCommandType::ARMOR_GET_STATE => 0x31,
            RMCommandType::ARMOR_LED_SET => 0x32,
            RMCommandType::LED_COLOR_SET => 0x33,
            RMCommandType::SET_CHASSIS_PWM_VALUE => 0x3c,
            RMCommandType::GET_CHASSIS_PWM_VALUE => 0x3d,
            RMCommandType::SET_CHASSIS_SPEED => 0x3f,
            RMCommandType::SET_TANK_WORK_MODE => 0x46,
            RMCommandType::GET_TANK_WORK_MODE => 0x47,
            RMCommandType::EXIT_LOW_POWER_MODE => 0x4c,
            RMCommandType::SHOOT_EVENT => 0x50,
            RMCommandType::SHOOT_CMD => 0x51,
            RMCommandType::SHOOT_GET_STATE => 0x52,
            RMCommandType::SHOOT_MODE_SET => 0x53,
            RMCommandType::SHOOT_MODE_GET => 0x54,
            RMCommandType::GUN_LED_SET => 0x55,
            RMCommandType::FC_RMC => 0x60,
            RMCommandType::FC_GET_STATE => 0x61,
            RMCommandType::SCRIPT_DOWNLOAD_DATA => 0xa1,
            RMCommandType::SCRIPT_DOWNLOAD_FINSH => 0xa2,
            RMCommandType::SCRIPT_CTRL => 0xa3,
            RMCommandType::SCRIPT_CUSTOM_INFO_PUSH => 0xa4,
            RMCommandType::SCRIPT_BLOCK_STATUS_PUSH => 0xa5,
            RMCommandType::SCRIPT_PARAMS_INFO_PUSH => 0xa6,
            RMCommandType::SCRIPT_LOG_INFO => 0xa7,
            RMCommandType::CUSTOM_SKILL_CONFIG_QUERY => 0xa8,
            RMCommandType::SCRIPT_LOCAL_SUB_SERVICE => 0xa9,
            RMCommandType::SUB_MOBILE_INFO => 0xab,
            RMCommandType::MOBILE_INFO_PUSH => 0xac,
            RMCommandType::SCRATCH_AUTO_TEST => 0xaf,
            RMCommandType::GIMBAL_DEGREE_SET => 0xb0,
            RMCommandType::GIMBAL_POSITION_TASK_PUSH => 0xb1,
            RMCommandType::GIMBAL_RESET_POSITION_SET => 0xb2,
            RMCommandType::PLAY_SOUND_TASK => 0xb3,
            RMCommandType::PLAY_SOUND_TASK_PUSH => 0xb4,
            RMCommandType::ROBOTIC_ARM_POSITION_TASK_SET => 0xb5,
            RMCommandType::ROBOTIC_ARM_POSITION_TASK_PUSH => 0xb6,
            RMCommandType::SERVO_ANGLE_TASK_SET => 0xb7,
            RMCommandType::SERVO_ANGLE_TASK_PUSH => 0xb8,
            RMCommandType::CUSTOM_UI_ATTRIBUTE_SET => 0xba,
            RMCommandType::CUSTOM_UI_ACTION_TRIGGER => 0xbb,
            RMCommandType::CUSTOM_SOUND_CONVERT => 0xbc,
            RMCommandType::LINK_STATE_PUSH => 0xd0,
            RMCommandType::SDK_MODE_SET => 0xd1,
            RMCommandType::STREAM_CTRL => 0xd2,
            RMCommandType::UART_CONFIG => 0xc0,
            RMCommandType::UART_MSG => 0xc1,
            RMCommandType::UART_STATUS_PUSH => 0xc2,
            RMCommandType::MEDIA_SOUND_RECOGNIZE_SET => 0xe3,
            RMCommandType::MEDIA_SOUND_RECOGNIZE_PUSH => 0xe4,
            RMCommandType::MEDIA_CAMERA_BRIGHTNESS_GET => 0xe5,
            RMCommandType::GET_SENSOR_ADAPTER_DATA => 0xf0,
            RMCommandType::SET_SENSOR_ADAPTER_PARAM => 0xf1,
            RMCommandType::GET_SENSOR_ADAPTER_PARAM => 0xf2,
            RMCommandType::PUSH_SENSOR_ADAPTER_IO_EVENT => 0xf3,
            RMCommandType::PUSH_SENSOR_ADAPTER_ADC_VALUE => 0xf4,
            RMCommandType::PRODUCT_ATTRIBUTE_GET => 0xfe,
        }
    }

    /// The variant with wire value `v`, if there is one.
    pub fn try_from_value(v: u8) -> (r: Option<RMCommandType>)
        ensures
            r is Some ==> r->0.spec_value() == v,
            r is None ==> forall|e: RMCommandType| e.spec_value() != v,
    {
        match v {
            0x02 => Some(RMCommandType::HIT_EVENT),
            0x04 => Some(RMCommandType::SPECIAL_CONTROL),
            0x05 => Some(RMCommandType::WATER_GUN_PARM_SET),
            0x07 => Some(RMCommandType::ARMOR_VOICE_PARAMS_SET),
            0x09 => Some(RMCommandType::GAME_STATE_SYNC),
            0x0a => Some(RMCommandType::GAMECTRL_CMD),
            0x0b => Some(RMCommandType::GAME_GROUP_CONFIG),
            0x0c => Some(RMCommandType::GAME_START_END_CONFIG),
            0x0f => Some(RMCommandType::SKILL_SEND),
            0x10 => Some(RMCommandType::IR_EVENT),
            0x11 => Some(RMCommandType::BLOOD_LED_SET),
            0x12 => Some(RMCommandType::MODULE_STATUS_PUSH),
            0x19 => Some(RMCommandType::WORK_MODE_SET),
            0x1a => Some(RMCommandType::PLAY_SOUND),
            0x1b => Some(RMCommandType::SET_SPEAKER_VOLUME),
            0x1c => Some(RMCommandType::GET_SPEAKER_VOLUME),
            0x1d => Some(RMCommandType::AUDIO_TO_APP),
            0x1e => Some(RMCommandType::SET_AUDIO_STATUS),
            0x20 => Some(RMCommandType::WHEEL_SPEED_SET),
            0x21 => Some(RMCommandType::SPEED_SET),
            0x22 => Some(RMCommandType::FOLLOW_MODE_SET),
            0x23 => Some(RMCommandType::FPV_MODE_SPEED_SET),
            0x24 => Some(RMCommandType::GROUND_MODE_SET),
            0x25 => Some(RMCommandType::POSITION_SET),
            0x26 => Some(RMCommandType::WHEEL_STATUS_SET),
            0x27 => Some(RMCommandType::WHEEL_STATUS_GET),
            0x28 => Some(RMCommandType::SPEED_MODE_SET),
            0x2a => Some(RMCommandType::CHASSIS_POSITION_TASK_PUSH),
            0x2b => Some(RMCommandType::SET_CHASSIS_PWM_FREQ),
            0x2d => Some(RMCommandType::GET_CHASSIS_PWM_FREQ),
            0x31 => Some(RMCommandType::ARMOR_GET_STATE),
            0x32 => Some(RMCommandType::ARMOR_LED_SET),
            0x33 => Some(RMCommandType::LED_COLOR_SET),
            0x3c => Some(RMCommandType::SET_CHASSIS_PWM_VALUE),
            0x3d => Some(RMCommandType::GET_CHASSIS_PWM_VALUE),
            0x3f => Some(RMCommandType::SET_CHASSIS_SPEED),
            0x46 => Some(RMCommandType::SET_TANK_WORK_MODE),
            0x47 => Some(RMCommandType::GET_TANK_WORK_MODE),
            0x4c => Some(RMCommandType::EXIT_LOW_POWER_MODE),
            0x50 => Some(RMCommandType::SHOOT_EVENT),
            0x51 => Some(RMCommandType::SHOOT_CMD),
            0x52 => Some(RMCommandType::SHOOT_GET_STATE),
            0x53 => Some(RMCommandType::SHOOT_MODE_SET),
            0x54 => Some(RMCommandType::SHOOT_MODE_GET),
            0x55 => Some(RMCommandType::GUN_LED_SET),
            0x60 => Some(RMCommandType::FC_RMC),
            0x61 => Some(RMCommandType::FC_GET_STATE),
            0xa1 => Some(RMCommandType::SCRIPT_DOWNLOAD_DATA),
            0xa2 => Some(RMCommandType::SCRIPT_DOWNLOAD_FINSH),
            0xa3 => Some(RMCommandType::SCRIPT_CTRL),
            0xa4 => Some(RMCommandType::SCRIPT_CUSTOM_INFO_PUSH),
            0xa5 => Some(RMCommandType::SCRIPT_BLOCK_STATUS_PUSH),
            0xa6 => Some(RMCommandType::SCRIPT_PARAMS_INFO_PUSH),
            0xa7 => Some(RMCommandType::SCRIPT_LOG_INFO),
            0xa8 => Some(RMCommandType::CUSTOM_SKILL_CONFIG_QUERY),
            0xa9 => Some(RMCommandType::SCRIPT_LOCAL_SUB_SERVICE),
            0xab => Some(RMCommandType::SUB_MOBILE_INFO),
            0xac => Some(RMCommandType::MOBILE_INFO_PUSH),
            0xaf => Some(RMCommandType::SCRATCH_AUTO_TEST),
            0xb0 => Some(RMCommandType::GIMBAL_DEGREE_SET),
            0xb1 => Some(RMCommandType::GIMBAL_POSITION_TASK_PUSH),
            0xb2 => Some(RMCommandType::GIMBAL_RESET_POSITION_SET),
            0xb3 => Some(RMCommandType::PLAY_SOUND_TASK),
            0xb4 => Some(RMCommandType::PLAY_SOUND_TASK_PUSH),
            0xb5 => Some(RMCommandType::ROBOTIC_ARM_POSITION_TASK_SET),
            0xb6 => Some(RMCommandType::ROBOTIC_ARM_POSITION_TASK_PUSH),
            0xb7 => Some(RMCommandType::SERVO_ANGLE_TASK_SET),
            0xb8 => Some(RMCommandType::SERVO_ANGLE_TASK_PUSH),
            0xba => Some(RMCommandType::CUSTOM_UI_ATTRIBUTE_SET),
            0xbb => Some(RMCommandType::CUSTOM_UI_ACTION_TRIGGER),
            0xbc => Some(RMCommandType::CUSTOM_SOUND_CONVERT),
            0xd0 => Some(RMCommandType::LINK_STATE_PUSH),
            0xd1 => Some(RMCommandType::SDK_MODE_SET),
            0xd2 => Some(RMCommandType::STREAM_CTRL),
            0xc0 => Some(RMCommandType::UART_CONFIG),
            0xc1 => Some(RMCommandType::UART_MSG),
            0xc2 => Some(RMCommandType::UART_STATUS_PUSH),
            0xe3 => Some(RMCommandType::MEDIA_SOUND_RECOGNIZE_SET),
            0xe4 => Some(RMCommandType::MEDIA_SOUND_RECOGNIZE_PUSH),
            0xe5 => Some(RMCommandType::MEDIA_CAMERA_BRIGHTNESS_GET),
            0xf0 => Some(RMCommandType::GET_SENSOR_ADAPTER_DATA),
            0xf1 => Some(RMCommandType::SET_SENSOR_ADAPTER_PARAM),
            0xf2 => Some(RMCommandType::GET_SENSOR_ADAPTER_PARAM),
            0xf3 => Some(RMCommandType::PUSH_SENSOR_ADAPTER_IO_EVENT),
            0xf4 => Some(RMCommandType::PUSH_SENSOR_ADAPTER_ADC_VALUE),
            0xfe => Some(RMCommandType::PRODUCT_ATTRIBUTE_GET),
            _ => None,
        }
    }
}

} // verus!
