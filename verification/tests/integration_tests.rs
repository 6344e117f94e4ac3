use robomaster_rust::{
    CommandCounters, LedColor, LedCommand, MovementParams, RoboMaster, RoboMasterError,
};
use robomaster_rust::error::{CanError, ProtocolError};
use robomaster_rust::{CAN_TIMEOUT_MS, CONTROL_FREQUENCY, DEFAULT_CAN_INTERFACE};

#[test]
fn integration_tests_test_led_command_colors() {
    assert_eq!(LedCommand::red().color().red, 255);
    assert_eq!(LedCommand::red().color().green, 0);
    assert_eq!(LedCommand::red().color().blue, 0);

    assert_eq!(LedCommand::green().color().red, 0);
    assert_eq!(LedCommand::green().color().green, 255);
    assert_eq!(LedCommand::green().color().blue, 0);

    assert_eq!(LedCommand::blue().color().red, 0);
    assert_eq!(LedCommand::blue().color().green, 0);
    assert_eq!(LedCommand::blue().color().blue, 255);

    let white = LedCommand::white().color();
    assert_eq!(white.red, 255);
    assert_eq!(white.green, 255);
    assert_eq!(white.blue, 255);

    let off = LedCommand::off().color();
    assert_eq!(off.red, 0);
    assert_eq!(off.green, 0);
    assert_eq!(off.blue, 0);
}

#[test]
fn integration_tests_test_rgb_command() {
    let cmd = LedCommand::rgb(128, 64, 192);
    let color = cmd.color();
    assert_eq!(color.red, 128);
    assert_eq!(color.green, 64);
    assert_eq!(color.blue, 192);
}

#[test]
fn test_constants() {
    assert_eq!(DEFAULT_CAN_INTERFACE, "can0");
    assert_eq!(CONTROL_FREQUENCY, 100);
    assert_eq!(CAN_TIMEOUT_MS, 200);
}

#[test]
fn full_session_flow_produces_can_sized_frames() {
    let mut robot = RoboMaster::new();

    let mut all_frames: Vec<Vec<u8>> = Vec::new();
    all_frames.extend(robot.initialize());
    all_frames.extend(robot.move_robot(MovementParams { vx: 1100, vy: 950, vz: 1024 }));
    all_frames.extend(robot.control_led(LedColor { red: 0, green: 255, blue: 0 }));
    all_frames.extend(robot.send_touch());
    all_frames.extend(robot.stop());

    assert!(!all_frames.is_empty());
    for frame in &all_frames {
        assert!(!frame.is_empty());
        assert!(frame.len() <= 8);
    }

    let counters = robot.get_counters().clone();
    assert_eq!(counters.joy, 3);
    assert_eq!(counters.led, 1);
    assert_eq!(counters.gimbal, 2);

    robot.shutdown();
}

#[test]
fn error_classification() {
    let e = RoboMasterError::Protocol(ProtocolError::CommandNotFound { command_id: 999 });
    assert!(!e.is_recoverable());
    assert_eq!(e.category(), "protocol");

    let e = RoboMasterError::CanInterface(CanError::SendFailed(String::from("bus off")));
    assert!(e.is_recoverable());
    assert_eq!(e.category(), "can");

    let e = RoboMasterError::CanInterface(CanError::InvalidDataLength { length: 9, max_length: 8 });
    assert!(!e.is_recoverable());

    let e = RoboMasterError::Timeout { timeout_ms: 200 };
    assert!(e.is_recoverable());
    assert_eq!(e.category(), "timeout");

    let e = RoboMasterError::NotInitialized;
    assert!(!e.is_recoverable());
    assert_eq!(e.category(), "state");

    let e = RoboMasterError::generic(String::from("something else"));
    assert!(!e.is_recoverable());
    assert_eq!(e.category(), "generic");
}

#[test]
fn counters_are_independent_per_family() {
    let mut robot = RoboMaster::new();
    robot.is_initialized = true;

    robot.control_led(LedColor { red: 1, green: 2, blue: 3 });
    robot.control_led(LedColor { red: 1, green: 2, blue: 3 });
    robot.move_robot(MovementParams { vx: 1024, vy: 1024, vz: 1024 });
    robot.send_touch();

    let c: &CommandCounters = robot.get_counters();
    assert_eq!(c.led, 2);
    assert_eq!(c.joy, 2);
    assert_eq!(c.gimbal, 1);
}
