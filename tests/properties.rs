use robomaster_s1_proto::address::{hostid2packid, RMS1Address};
use robomaster_s1_proto::commands::gimbal::{GimbalMode, GimbalSetDegreeView, GimbalWorkModeSetView};
use robomaster_s1_proto::crc::{rm_s1_crc16, rm_s1_crc8};
use robomaster_s1_proto::duss::cmd_set_rm::RMCommandType;
use robomaster_s1_proto::duss::cmd_set_types::CommandSetType;
use robomaster_s1_proto::proto::{parse_frame, ParseError};
use robomaster_s1_proto::stream::{ChannelState, StreamReassembler};
use robomaster_s1_proto::vbus::topic_view::RMAddSubView;
use robomaster_s1_proto::wire::{build_frame, EncryptType, RMWireFrameView};

const HEARTBEAT: [u8; 27] = [
    0x55, 0x1B, 0x04, 0x75, 0x09, 0xC3, 0xE0, 0x00, 0x00, 0x3F, 0x60, 0x00, 0x04, 0x20, 0x00,
    0x01, 0x00, 0x40, 0x00, 0x02, 0x10, 0x04, 0x03, 0x00, 0x04, 0xFA, 0xF0,
];

const SHORT_FRAME: [u8; 14] = [
    0x55, 0x0E, 0x04, 0x66, 0x09, 0x03, 0x4E, 0x06, 0xA0, 0x48, 0x08, 0x01, 0xC2, 0xE8,
];

#[test]
fn heartbeat_frame_fields() {
    let frame = RMWireFrameView::new(&HEARTBEAT);
    assert!(frame.is_valid());
    assert_eq!(frame.sender_id(), 0x09);
    assert_eq!(frame.receiver_id(), 0xC3);
    assert_eq!(frame.sequence_number(), 0xE0);
    assert_eq!(frame.cmd_set(), 0x3F);
    assert_eq!(frame.cmd_id(), 0x60);
    assert_eq!(frame.packet_crc16_field(), 0xF0FA);
    assert_eq!(frame.crc16_computed(), 0xF0FA);
    assert_eq!(frame.crc8_computed(), 0x75);
    assert_eq!(frame.header_crc8(), 0x75);
    assert_eq!(frame.encrypt_type(), EncryptType::NO_ENC);
}

#[test]
fn checksum_vectors() {
    assert_eq!(rm_s1_crc8(&[0x55, 0x1B, 0x04]), 0x75);
    assert_eq!(rm_s1_crc16(&HEARTBEAT[..25]), 0xF0FA);
    assert_eq!(rm_s1_crc8(&[]), 0x77);
    assert_eq!(rm_s1_crc16(&[]), 0x3692);
}

#[test]
fn pack_id_scenario() {
    assert_eq!(hostid2packid(2401), 0x38);
    assert_eq!(hostid2packid(100), 0x01);
    assert_eq!(hostid2packid(RMS1Address::chassis_id.value()), 0xC3);
    assert_eq!(hostid2packid(0), 0x00);
    assert_eq!(hostid2packid(65535), 0x6F);
}

#[test]
fn embedded_frame_found_after_garbage() {
    let mut buf = vec![0x00, 0x11];
    buf.extend_from_slice(&HEARTBEAT);
    buf.extend_from_slice(&[0x55, 0x01]);
    assert_eq!(parse_frame(&buf), Ok((&HEARTBEAT[..], 2 + HEARTBEAT.len())));
}

#[test]
fn header_bit_flip_is_caught() {
    for pos in 1..4 {
        for bit in 0..8 {
            let mut buf = vec![0x00, 0x11];
            buf.extend_from_slice(&HEARTBEAT);
            buf[2 + pos] ^= 1 << bit;
            assert_eq!(parse_frame(&buf), Err(ParseError::InvalidHeaderCRC(5)));
        }
    }
}

#[test]
fn packet_bit_flip_is_caught() {
    for pos in 4..HEARTBEAT.len() {
        for bit in 0..8 {
            let mut buf = vec![0x00, 0x11];
            buf.extend_from_slice(&HEARTBEAT);
            buf[2 + pos] ^= 1 << bit;
            assert_eq!(parse_frame(&buf), Err(ParseError::InvalidPacketCRC(5)));
        }
    }
}

#[test]
fn twelve_bytes_never_valid() {
    let frame = RMWireFrameView::new(&HEARTBEAT[..12]);
    assert!(!frame.is_valid());
    let built = build_frame(1, 2, 3, false, false, EncryptType::NO_ENC, 4, 5, &[]);
    assert_eq!(built.len(), 13);
    assert!(RMWireFrameView::new(&built[..]).is_valid());
    assert!(!RMWireFrameView::new(&built[..12]).is_valid());
}

#[test]
fn length_past_end_needs_more_data() {
    let mut buf = vec![0x42];
    buf.extend_from_slice(&HEARTBEAT[..20]);
    assert_eq!(parse_frame(&buf), Err(ParseError::NeedMoreData(7, 1)));
    assert_eq!(parse_frame(&[0x55]), Err(ParseError::NeedMoreData(3, 0)));
}

#[test]
fn packet_crc_mismatch_reported() {
    let mut buf = SHORT_FRAME;
    buf[13] = 0x00;
    assert_eq!(parse_frame(&buf), Err(ParseError::InvalidPacketCRC(3)));
}

#[test]
fn too_short_length_field_reported() {
    let header = [0x55, 0x01, 0x04];
    let mut buf = header.to_vec();
    buf.push(rm_s1_crc8(&header));
    assert_eq!(parse_frame(&buf), Err(ParseError::InvalidPacketCRC(3)));
}

#[test]
fn built_frame_round_trip() {
    let built = build_frame(0x09, 0xC3, 0x1234, false, true, EncryptType::NO_ENC, 0x3F, 0x51, &[0x01]);
    assert_eq!(
        built,
        vec![0x55, 0x0E, 0x04, 0x66, 0x09, 0xC3, 0x34, 0x12, 0x20, 0x3F, 0x51, 0x01, 0xDA, 0xF9]
    );
    let (frame, consumed) = parse_frame(&built).unwrap();
    assert_eq!(consumed, built.len());
    let view = RMWireFrameView::new(frame);
    assert!(view.is_valid());
    assert_eq!(view.sender_id(), 0x09);
    assert_eq!(view.receiver_id(), 0xC3);
    assert_eq!(view.sequence_number(), 0x1234);
    assert_eq!(view.is_ack(), false);
    assert_eq!(view.need_ack(), true);
    assert_eq!(view.encrypt_type(), EncryptType::NO_ENC);
    assert_eq!(view.cmd_set(), 0x3F);
    assert_eq!(view.cmd_id(), 0x51);
    assert_eq!(view.payload(), &[0x01]);
}

#[test]
fn mutators_then_finalize() {
    let mut buf = vec![0u8; 16];
    buf[0] = 0x55;
    buf[2] = 0x04;
    let mut view = RMWireFrameView::new(&mut buf[..]);
    view.set_packet_length_field(16);
    view.set_header_crc8();
    view.set_sender_id(0x58);
    view.set_receiver_id(0x1D);
    view.set_sequence_number(0xBEEF);
    view.set_is_ack(true);
    view.set_need_ack(true);
    view.set_encrypt_type(EncryptType::XOR_ENC);
    view.set_need_ack(false);
    view.set_cmd_set(0x48);
    view.set_cmd_id(0x08);
    view.set_payload(&[0xAA, 0xBB, 0xCC]);
    assert!(!view.is_valid());
    let crc = view.crc16_computed();
    view.set_packet_crc16_field(crc);
    assert!(view.is_valid());
    assert_eq!(view.packet_length_field(), 16);
    assert_eq!(view.sender_id(), 0x58);
    assert_eq!(view.receiver_id(), 0x1D);
    assert_eq!(view.sequence_number(), 0xBEEF);
    assert!(view.is_ack());
    assert!(!view.need_ack());
    assert_eq!(view.encrypt_type(), EncryptType::XOR_ENC);
    assert_eq!(view.payload(), &[0xAA, 0xBB, 0xCC]);
    view.payload_mut()[1] = 0x11;
    assert_eq!(view.payload(), &[0xAA, 0x11, 0xCC]);
    assert!(!view.is_valid());
    let owned = view.into_inner();
    assert_eq!(owned[8], 0x83);
    let (frame, consumed) = parse_frame(&buf).map(|(f, c)| (f.to_vec(), c)).unwrap_or((vec![], 0));
    assert_eq!((frame.len(), consumed), (0, 0));
}

#[test]
fn encrypt_type_values() {
    assert_eq!(EncryptType::try_from_value(5), Some(EncryptType::DES_112_ENC));
    assert_eq!(EncryptType::try_from_value(8), None);
    assert_eq!(EncryptType::AES_256_ENC.value(), 7);
}

#[test]
fn reassembler_two_chunks() {
    let mut r = StreamReassembler::new();
    let first = r.push(0x201, &[0x00, 0x55, 0x0E, 0x04, 0x66, 0x09, 0x03, 0x4E, 0x06]);
    assert!(first.is_empty());
    assert_eq!(r.pending_len(0x201), 8);
    let second = r.push(0x201, &[0xA0, 0x48, 0x08, 0x01, 0xC2, 0xE8]);
    assert_eq!(second, vec![SHORT_FRAME.to_vec()]);
    assert_eq!(r.pending_len(0x201), 0);
}

#[test]
fn reassembler_bytewise_matches_bulk() {
    let mut stream = vec![0x13, 0x55, 0x00, 0x00, 0x00, 0x07];
    stream.extend_from_slice(&HEARTBEAT);
    stream.extend_from_slice(&[0x99]);
    stream.extend_from_slice(&SHORT_FRAME);
    stream.extend_from_slice(&HEARTBEAT[..9]);

    let mut bulk = ChannelState::new();
    let bulk_frames = bulk.push(&stream);

    let mut single = ChannelState::new();
    let mut single_frames = Vec::new();
    for b in &stream {
        single_frames.extend(single.push(&[*b]));
    }
    assert_eq!(bulk_frames, vec![HEARTBEAT.to_vec(), SHORT_FRAME.to_vec()]);
    assert_eq!(single_frames, bulk_frames);
    assert_eq!(single.buffered(), bulk.buffered());
    assert_eq!(bulk.buffered(), &HEARTBEAT[..9]);
    assert_eq!(bulk.bytes_needed(), Some(27));
}

#[test]
fn reassembler_channels_independent() {
    let mut r = StreamReassembler::new();
    assert!(r.push(1, &SHORT_FRAME[..5]).is_empty());
    assert!(r.push(2, &SHORT_FRAME[..7]).is_empty());
    assert_eq!(r.push(1, &SHORT_FRAME[5..]), vec![SHORT_FRAME.to_vec()]);
    assert_eq!(r.pending_len(2), 7);
    assert_eq!(r.push(2, &SHORT_FRAME[7..]), vec![SHORT_FRAME.to_vec()]);
    assert_eq!(r.pending_len(3), 0);
}

#[test]
fn reassembler_drops_garbage_without_marker() {
    let mut st = ChannelState::new();
    assert!(st.push(&[0x01, 0x02, 0x03]).is_empty());
    assert!(st.buffered().is_empty());
    assert_eq!(st.bytes_needed(), None);
}

#[test]
fn gimbal_degree_fields() {
    let mut buf = build_frame(0x09, 0x04, 0, false, false, EncryptType::NO_ENC, 0x3F, 0xB0, &[0u8; 17]);
    let mut view = GimbalSetDegreeView::new(RMWireFrameView::new(&mut buf[..]));
    assert!(view.is_valid());
    view.set_task_id(7);
    view.set_task_ctrl(1);
    view.set_ctrl(2);
    view.set_yaw_degree(-300);
    view.set_roll_degree(12);
    view.set_pitch_degree(-1);
    view.set_deviation(i16::MIN);
    view.set_yaw_accel(500);
    view.set_roll_accel(0xFFFF);
    view.set_pitch_accel(1);
    assert_eq!(view.task_id(), 7);
    assert_eq!(view.task_ctrl(), 1);
    assert_eq!(view.ctrl(), 2);
    assert_eq!(view.yaw_degree(), -300);
    assert_eq!(view.roll_degree(), 12);
    assert_eq!(view.pitch_degree(), -1);
    assert_eq!(view.deviation(), i16::MIN);
    assert_eq!(view.yaw_accel(), 500);
    assert_eq!(view.roll_accel(), 0xFFFF);
    assert_eq!(view.pitch_accel(), 1);
    assert!(!view.is_valid());
    let frame = view.packet_mut();
    let crc = frame.crc16_computed();
    frame.set_packet_crc16_field(crc);
    assert!(view.is_valid());
    assert_eq!(&buf[14..16], &[0xD4, 0xFE]);
}

#[test]
fn gimbal_mode_unknown_value() {
    let mut buf = build_frame(0x09, 0x04, 0, false, false, EncryptType::NO_ENC, 0x04, 0x4C, &[0x07, 0x00]);
    {
        let view = GimbalWorkModeSetView::new(RMWireFrameView::new(&buf[..]));
        assert_eq!(view.mode(), GimbalMode::Unknown);
        assert!(view.is_valid());
    }
    let mut view = GimbalWorkModeSetView::new(RMWireFrameView::new(&mut buf[..]));
    view.set_mode(0x02);
    view.set_cmd(0x01);
    assert_eq!(view.mode(), GimbalMode::Follow);
    assert_eq!(view.cmd(), 0x01);
    assert!(!view.is_valid());
}

#[test]
fn add_sub_topics_with_slop() {
    let payload = [0x09, 0x01, 0x03, 0x00, 0x01, 1, 2, 3, 4, 5, 6, 7, 8, 9, 0x32, 0x00];
    let buf = build_frame(0x09, 0x03, 0, false, false, EncryptType::NO_ENC, 0x48, 0x03, &payload);
    let view = RMAddSubView::new(RMWireFrameView::new(&buf));
    assert!(view.topics().is_none());
    assert!(view.timestamp_requested());
    assert!(view.stop_when_disconnected());
    assert_eq!(view.frequency(), 50);
}

#[test]
fn command_ids() {
    assert_eq!(CommandSetType::try_from_value(0x48), Some(CommandSetType::VIRTUAL_BUS));
    assert_eq!(CommandSetType::try_from_value(0x40), None);
    assert_eq!(RMCommandType::try_from_value(0xB0), Some(RMCommandType::GIMBAL_DEGREE_SET));
    assert_eq!(RMS1Address::try_from_value(2401), Some(RMS1Address::armor1_id));
}
