use robomaster_s1_proto::address::hostid2packid;
use robomaster_s1_proto::commands::chassis::{ChassisWorkModeSetView, SpeedSetView};
use robomaster_s1_proto::commands::gimbal::{GimbalMode, GimbalWorkModeSetView};
use robomaster_s1_proto::commands::rmc::RMCPacketView;
use robomaster_s1_proto::duss::cmd_set_gimbal::GimbalCommandType;
use robomaster_s1_proto::duss::cmd_set_rm::RMCommandType;
use robomaster_s1_proto::duss::cmd_set_types::CommandSetType;
use robomaster_s1_proto::wire::RMWireFrameView;

#[test]
fn test_hostid2packid() {
    // CAMERA = 100
    assert_eq!(hostid2packid(100), 0x01);
    // MOBILE = 200
    assert_eq!(hostid2packid(200), 0x02);
    // CHASSIS = 306
    assert_eq!(hostid2packid(306), 0xC3);
    // GIMBAL = 400
    assert_eq!(hostid2packid(400), 0x04);
    // GUN = 2300
    assert_eq!(hostid2packid(2300), 0x17);
    // VISION = 1707
    assert_eq!(hostid2packid(1707), 0xF1);
    // BATTERY = 1100
    assert_eq!(hostid2packid(1100), 0x0B);
    // HDVT_UAV = 900
    assert_eq!(hostid2packid(900), 0x09);
    // SYSTEM = 801
    assert_eq!(hostid2packid(801), 0x28);
    // SYSTEM_SCRATCH = 803
    assert_eq!(hostid2packid(803), 0x68);
    // SCRATCH_SYS = 905
    assert_eq!(hostid2packid(905), 0xA9);
    // SCRATCH_SCRIPT = 906
    assert_eq!(hostid2packid(906), 0xC9);
    // ARMOR = 2400
    assert_eq!(hostid2packid(2400), 0x18);
    // ARMOR1 = 2401
    assert_eq!(hostid2packid(2401), 0x38);
    // ESC0 = 1200
    assert_eq!(hostid2packid(1200), 0x0C);
    // ESC1 = 1201
    assert_eq!(hostid2packid(1201), 0x2C);
    // ESC2 = 1202
    assert_eq!(hostid2packid(1202), 0x4C);
}

#[test]
fn test_speed_vector_control_view() {
    let mut buf = [
        0x55, 0x19, 0x04, 0xe4, 0x09, 0xC3, 0xE0, 0x00, 0x00, 0x3F, 0x21, //
        0x00, 0x00, 0x80, 0x3f, //
        0x00, 0x00, 0x80, 0x3f, //
        0x00, 0x00, 0x80, 0x3f, //
        0x7d, 0x16,
    ];

    let packet = RMWireFrameView::new(&mut buf);
    let mut speed_vector_control = SpeedSetView::new(packet);

    assert_eq!(speed_vector_control.packet.cmd_set(), CommandSetType::RM.value());
    assert_eq!(speed_vector_control.packet.cmd_id(), RMCommandType::SPEED_SET.value());
    assert_eq!(speed_vector_control.packet.payload().len(), 3 * 4);

    assert_eq!(f32::from_bits(speed_vector_control.x_bits()), 1.0);
    assert_eq!(f32::from_bits(speed_vector_control.y_bits()), 1.0);
    assert_eq!(f32::from_bits(speed_vector_control.omega_bits()), 1.0);

    assert_eq!(speed_vector_control.is_valid(), true);

    speed_vector_control.set_x_bits(2.0f32.to_bits());
    assert_eq!(f32::from_bits(speed_vector_control.x_bits()), 2.0);
}

#[test]
fn test_workmodesetview() {
    let buf = [
        0x55, 0x1B, 0x04, 0x75, 0x09, 0xC3, 0xE0, 0x00, 0x00, 0x3F, 0x19, 0x01, 0x04, 0x20,
    ];

    let packet = RMWireFrameView::new(&buf);
    let work_mode_set = ChassisWorkModeSetView::new(packet);

    assert_eq!(work_mode_set.packet.cmd_set(), CommandSetType::RM.value());
    assert_eq!(work_mode_set.packet.cmd_id(), RMCommandType::WORK_MODE_SET.value());
    assert_eq!(work_mode_set.work_mode(), 0x01); // SDK Mode
}

#[test]
fn work_mode_test_workmodesetview() {
    let buf = [
        0x55, 0x0F, 0x04, 0xa2, 0x09, 0xC3, 0xE0, 0x00, 0x00, 0x04, 0x4C, 0x00, 0x00, 0x6c,
        0xe1,
    ];

    let packet = RMWireFrameView::new(&buf);
    let work_mode_set = GimbalWorkModeSetView::new(packet);

    assert_eq!(work_mode_set.packet.cmd_set(), CommandSetType::GIMBAL.value());
    assert_eq!(work_mode_set.packet.cmd_id(), GimbalCommandType::GIMBAL_SET_MODE.value());
    assert_eq!(work_mode_set.mode(), GimbalMode::Free); // Free Mode
    assert_eq!(work_mode_set.cmd(), 0x00); // Always 0x00

    assert_eq!(work_mode_set.is_valid(), true);
}

#[test]
fn test_rmcpacketview() {
    let buf = [
        0x55, 0x1B, 0x04, 0x75, 0x09, 0xC3, 0xE0, 0x00, 0x00, 0x3F, 0x60, 0x00, 0x04, 0x20,
        0x00, 0x01, 0x00, 0x40, 0x00, 0x02, 0x10, 0x04, 0x03, 0x00, 0x04, 0xFA, 0xF0,
    ];

    let packet = RMWireFrameView::new(&buf);
    let rmc_packet = RMCPacketView::new(packet);

    assert_eq!(rmc_packet.packet.is_valid(), true);

    assert_eq!(rmc_packet.packet.cmd_set(), CommandSetType::RM.value());
    assert_eq!(rmc_packet.packet.cmd_id(), RMCommandType::FC_RMC.value());

    println!("{:0x?}", rmc_packet.packet.payload());
}
