use robomaster_s1_proto::crc::{rm_crc16, rm_crc8};
use robomaster_s1_proto::duss::cmd_set_gimbal::GimbalCommandType;
use robomaster_s1_proto::duss::cmd_set_rm::RMCommandType;
use robomaster_s1_proto::duss::cmd_set_types::CommandSetType;
use robomaster_s1_proto::wire::RMWireFrameView;

#[test]
fn test_rm_wire_frame_view() {
    let buf: [u8; 36] = [
        0x55, 0x24, 0x04, 0x40, 0x58, 0x1d, 0x00, 0x00, //
        0x00, 0x00, 0xf0, 0x00, 0x6d, 0x69, 0x63, 0x3a, //
        0x68, 0x7a, 0x20, 0x65, 0x72, 0x72, 0x2c, 0x76, //
        0x61, 0x6c, 0x75, 0x65, 0x3a, 0x35, 0x31, 0x31, //
        0x0d, 0x0a, 0x41, 0x04,
    ];
    let frame = RMWireFrameView::new(&buf);

    assert_eq!(frame.sender_id(), 0x58);
    assert_eq!(frame.receiver_id(), 0x1d);
    assert_eq!(frame.packet_length_field(), 0x24);
    assert_eq!(frame.sequence_number(), 0);
    assert_eq!(frame.is_ack(), false);
    assert_eq!(frame.need_ack(), false);
    assert_eq!(frame.cmd_set(), 0x00);
    assert_eq!(frame.cmd_id(), 0xf0);
    let expected_str = b"\0mic:hz err,value:511\r\n";
    assert_eq!(frame.payload(), expected_str);
}

#[test]
fn test_rm_unknown_msg() {
    let buf = [
        0x55, 0x0E, 0x04, 0x66, 0x09, 0x03, 0x4E, 0x06, 0xA0, 0x48, 0x08, 0x01, 0xC2, 0xE8,
    ];

    let frame = RMWireFrameView::new(&buf);

    let crc16 = rm_crc16(0x3692, &buf[..buf.len() - 2]);
    assert_eq!(crc16, frame.packet_crc16_field());

    assert_eq!(frame.is_valid(), true);
}

#[test]
fn test_heartbeat_msg() {
    // The so call heartbeat message is actually a RMC (ReMote Control) message
    let buf = [
        0x55, 0x1B, 0x04, 0x75, 0x09, 0xC3, 0xE0, 0x00, 0x00, 0x3F, 0x60, 0x00, 0x04, 0x20,
        0x00, 0x01, 0x00, 0x40, 0x00, 0x02, 0x10, 0x04, 0x03, 0x00, 0x04, 0xFA, 0xF0,
    ];

    let frame = RMWireFrameView::new(&buf);

    assert_eq!(frame.sender_id(), 0x09);
    assert_eq!(frame.receiver_id(), 0xC3);
    assert_eq!(frame.packet_length_field(), 0x1B);
    assert_eq!(frame.sequence_number(), 0xE0);
    assert_eq!(frame.is_ack(), false);
    assert_eq!(frame.need_ack(), false);
    assert_eq!(frame.cmd_set(), CommandSetType::RM.value());
    assert_eq!(frame.cmd_id(), RMCommandType::FC_RMC.value());
    assert_eq!(frame.payload(), &buf[11..buf.len() - 2]);

    let crc8_calculated = rm_crc8(0x77, &buf[..3]);
    assert_eq!(crc8_calculated, 0x75);

    let crc16_calculated = rm_crc16(0x3692, &buf[..buf.len() - 2]);
    assert_eq!(crc16_calculated, 0xF0FA);

    let my_payload_normal_mode = b"\x00\x04 \x00\x01\x08@\x00\x02\x10\x04\x00\x00\x04";
    assert_ne!(frame.payload(), my_payload_normal_mode);

    let payload = my_payload_normal_mode;
    // 11-bit Unsigned S-BUS RC data
    let rc_ch0 = payload[0] as u16 | ((payload[1] as u16) << 8) & 0x7FF;
    let rc_ch1 = payload[1] as u16 >> 3 | ((payload[2] as u16) << 5) & 0x7FF;
    let rc_ch2 = payload[2] as u16 >> 6
        | ((payload[3] as u16) << 2)
        | ((payload[4] as u16) << 10) & 0x7FF;
    let rc_ch3 = payload[4] as u16 >> 1 | ((payload[5] as u16) << 7) & 0x7FF;
    let rc_ang_z = (payload[5] & 0xF0) as u16 >> 4 | ((payload[6] as u16) << 4) & 0x7FF;
    let rc_ch5 = payload[6] as u16 >> 7
        | ((payload[7] as u16) << 1)
        | ((payload[8] as u16) << 9) & 0x7FF;
    let rc_ch6 = payload[8] as u16 >> 2 | ((payload[9] as u16) << 6) & 0x7FF;

    assert_eq!(rc_ch0, 1024);
    assert_eq!(rc_ch1, 1024);
    assert_eq!(rc_ch2, 1024);
    assert_eq!(rc_ch3, 1024);
    assert_eq!(rc_ang_z, 1024);
    assert_eq!(rc_ch5, 1024);
    assert_eq!(rc_ch6, 1024);
}

#[test]
fn test_slow_mode_enter() {
    let buf = [
        0x55, 0x0E, 0x04, 0xFF, 0x09, 0xC3, 0xFF, 0xFF, 0x40, 0x3F, 0x3F, 0x03, 0xFF, 0xFF,
    ];

    let frame = RMWireFrameView::new(&buf);

    assert_eq!(frame.sender_id(), 0x09);
    assert_eq!(frame.receiver_id(), 0xC3);
    assert_eq!(frame.packet_length_field(), 0x0E);

    assert_eq!(frame.sequence_number(), 0xFFFF);
    assert_eq!(frame.cmd_set(), CommandSetType::RM.value());
    assert_eq!(frame.cmd_id(), RMCommandType::SET_CHASSIS_SPEED.value());
    assert_eq!(frame.payload(), &[0x3]);
    assert_eq!(frame.need_ack(), false);
}

#[test]
fn test_set_led_1() {
    let buf = [
        0x55, 0x1A, 0x04, 0xFF, 0x09, 0x18, 0xFF, 0xFF, 0x00, 0x3F, 0x32, 0x01, 0xFF, 0x00,
        0x00, 0x00, 0xFF, 0x00, 0xC8, 0x00, 0xC8, 0x00, 0x0F, 0x00, 0xFF, 0xFF,
    ];

    let frame = RMWireFrameView::new(&buf);

    assert_eq!(frame.sender_id(), 0x09);
    assert_eq!(frame.receiver_id(), 0x18);

    assert_eq!(frame.packet_length_field(), 0x1A);
    assert_eq!(frame.sequence_number(), 0xFFFF);
    assert_eq!(frame.cmd_set(), CommandSetType::RM.value());
    assert_eq!(frame.cmd_id(), RMCommandType::ARMOR_LED_SET.value());
    assert_eq!(
        frame.payload(),
        &[0x01, 0xFF, 0x00, 0x00, 0x00, 0xFF, 0x00, 0xC8, 0x00, 0xC8, 0x00, 0x0F, 0x00]
    );
}

#[test]
fn test_shoot_gel_gun() {
    let buf = [
        0x55, 0x0E, 0x04, 0xFF, 0x09, 0x17, 0xFF, 0xFF, 0x00, 0x3F, 0x51, 0x01, 0xFF, 0xFF,
    ];
    let frame = RMWireFrameView::new(&buf);

    assert_eq!(frame.sender_id(), 0x09);
    assert_eq!(frame.receiver_id(), 0x17);
    assert_eq!(frame.packet_length_field(), 0x0E);

    assert_eq!(frame.cmd_set(), CommandSetType::RM.value());
    assert_eq!(frame.cmd_id(), RMCommandType::SHOOT_CMD.value());
    assert_eq!(frame.payload(), &[0x01]);
}

#[test]
fn test_gimbal_set_angle_robostack() {
    let buf = [
        0x55, 0x14, 0x04, 0xFF, 0x09, 0x04, 0xFF, 0xFF, 0x00, 0x04, 0x69, 0x08, 0x05, 0x00,
        0x00, 0x00, 0x00, 0x6D, 0xFF, 0xFF,
    ];

    let frame = RMWireFrameView::new(&buf);

    assert_eq!(frame.sender_id(), 0x09);
    assert_eq!(frame.receiver_id(), 0x04);
    assert_eq!(frame.packet_length_field(), 0x14);
    assert_eq!(frame.cmd_set(), CommandSetType::GIMBAL.value());
    assert_eq!(frame.cmd_id(), 0x69);

    println!("{:0x?}", frame.payload())
}

#[test]
fn test_gimbal_command() {
    let cmd = [
        0x55, 0x14, 0x04, 0xFF, 0x09, 0x04, 0xFF, 0xFF, 0x00, 0x04, 0x69, 0x08, 0x05, 0x00,
        0x00, 0x00, 0x00, 0x6D, 0xFF, 0xFF,
    ];

    let result = RMWireFrameView::new(cmd);

    assert_eq!(result.sender_id(), 0x09);
    assert_eq!(result.receiver_id(), 0x04);
    assert_eq!(result.cmd_set(), CommandSetType::GIMBAL.value());
    assert_eq!(result.cmd_id(), GimbalCommandType::GIMBAL_SET_ANGLES.value());
}
