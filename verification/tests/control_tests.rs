use robomaster_rust::builder::{CommandBuilder, GimbalParams, LedColor, MovementParams};
use robomaster_rust::can::CommandCounters;
use robomaster_rust::control::{LedCommand, RoboMaster};

#[test]
fn mod_test_led_command_colors() {
    assert_eq!(LedCommand::red().color().red, 255);
    assert_eq!(LedCommand::green().color().green, 255);
    assert_eq!(LedCommand::blue().color().blue, 255);
    assert_eq!(
        LedCommand::white().color(),
        LedColor { red: 255, green: 255, blue: 255 }
    );
    assert_eq!(LedCommand::off().color(), LedColor { red: 0, green: 0, blue: 0 });
}

#[test]
fn mod_test_rgb_command() {
    let cmd = LedCommand::rgb(128, 64, 192);
    let color = cmd.color();
    assert_eq!(color.red, 128);
    assert_eq!(color.green, 64);
    assert_eq!(color.blue, 192);
}

#[test]
fn new_session_starts_uninitialized_with_zero_counters() {
    let robot = RoboMaster::new();
    assert!(!robot.is_initialized);
    let counters = robot.get_counters();
    assert_eq!(counters.joy, 0);
    assert_eq!(counters.led, 0);
    assert_eq!(counters.gimbal, 0);
}

#[test]
fn first_move_sends_boot_sequence_exactly_once() {
    let mut robot = RoboMaster::new();
    let movement = MovementParams { vx: 1100, vy: 1024, vz: 900 };

    let first = robot.move_robot(movement);
    assert!(robot.is_initialized);
    let second = robot.move_robot(movement);

    // The boot sequence is 150 bytes = 19 frames; twist is 27 bytes = 4
    // frames; the coupled gimbal command is 19 bytes = 3 frames.
    assert_eq!(first.len(), 19 + 4 + 3);
    assert_eq!(second.len(), 4 + 3);

    // The first move opens with exactly the frames initialize() sends.
    let mut fresh = RoboMaster::new();
    let boot_frames = fresh.initialize();
    assert_eq!(boot_frames.len(), 19);
    assert_eq!(&first[0..19], &boot_frames[..]);

    // The later frames of the first burst match the second burst except
    // for the embedded counters, which advanced.
    assert_eq!(first[19].len(), second[0].len());
}

#[test]
fn move_frames_reassemble_into_twist_then_gimbal() {
    let mut robot = RoboMaster::new();
    robot.initialize();
    let movement = MovementParams { vx: 1100, vy: 1024, vz: 900 };
    let frames = robot.move_robot(movement);

    let mut joined: Vec<u8> = Vec::new();
    for frame in &frames {
        joined.extend_from_slice(frame);
    }

    let builder = CommandBuilder::new();
    let counters = CommandCounters::default();
    let twist = builder.build_twist_command(movement, &counters).unwrap();
    // The coupled gimbal yaw rescales the clamped rotation: 4096 - 4 * 900.
    let gimbal = builder
        .build_gimbal_command(GimbalParams { ry: 0, rz: 496 }, &counters)
        .unwrap();

    let mut expected = twist.clone();
    expected.extend_from_slice(&gimbal);
    assert_eq!(joined, expected);
}

#[test]
fn initialize_is_idempotent() {
    let mut robot = RoboMaster::new();
    let first = robot.initialize();
    assert!(!first.is_empty());
    assert!(robot.is_initialized);
    let again = robot.initialize();
    assert!(again.is_empty());
}

#[test]
fn move_increments_joy_and_gimbal_every_call() {
    let mut robot = RoboMaster::new();
    let a = MovementParams { vx: 1100, vy: 1024, vz: 900 };
    let b = MovementParams { vx: 1100, vy: 1024, vz: 900 };

    robot.move_robot(a);
    assert_eq!(robot.get_counters().joy, 1);
    assert_eq!(robot.get_counters().gimbal, 1);
    assert_eq!(robot.get_counters().led, 0);

    // Identical movement values still advance the counters.
    robot.move_robot(b);
    assert_eq!(robot.get_counters().joy, 2);
    assert_eq!(robot.get_counters().gimbal, 2);
    assert_eq!(robot.get_counters().led, 0);
}

#[test]
fn joy_counter_wraps_around_without_error() {
    let mut robot = RoboMaster::new();
    robot.is_initialized = true;
    robot.command_counters.joy = 0xFFFF;
    robot.command_counters.gimbal = 0xFFFF;
    robot.move_robot(MovementParams { vx: 1024, vy: 1024, vz: 1024 });
    assert_eq!(robot.get_counters().joy, 0);
    assert_eq!(robot.get_counters().gimbal, 0);
}

#[test]
fn stop_is_a_neutral_move() {
    let mut robot = RoboMaster::new();
    robot.initialize();
    let stop_frames = robot.stop();

    let mut other = RoboMaster::new();
    other.initialize();
    let neutral = MovementParams { vx: 1024, vy: 1024, vz: 1024 };
    let move_frames = other.move_robot(neutral);

    assert_eq!(stop_frames, move_frames);
    assert_eq!(robot.get_counters().joy, 1);
}

#[test]
fn control_led_works_without_initialization() {
    let mut robot = RoboMaster::new();
    let frames = robot.control_led(LedCommand::red().color());
    assert!(!robot.is_initialized);
    assert!(!frames.is_empty());
    assert_eq!(robot.get_counters().led, 1);
    assert_eq!(robot.get_counters().joy, 0);
    assert_eq!(robot.get_counters().gimbal, 0);
}

#[test]
fn send_touch_increments_joy_only() {
    let mut robot = RoboMaster::new();
    let frames = robot.send_touch();
    assert_eq!(frames.len(), 2);
    assert_eq!(frames[0][0], 0x55);
    assert_eq!(frames[1][0], 0x40);
    assert_eq!(robot.get_counters().joy, 1);
    assert_eq!(robot.get_counters().led, 0);
    assert_eq!(robot.get_counters().gimbal, 0);
}

#[test]
fn received_telemetry_resynchronizes_joy() {
    let mut robot = RoboMaster::new();
    let data = vec![0x55, 0x1b, 0x04, 0x75, 0x09, 0xc3, 0x10, 0x00];
    robot.process_received_frame(0x201, &data);
    assert_eq!(robot.get_counters().joy, 0x11);

    let other = vec![0x55, 0x00, 0x00, 0x00];
    robot.process_received_frame(0x201, &other);
    assert_eq!(robot.get_counters().joy, 0x11);
}

#[test]
fn shutdown_consumes_the_session() {
    let mut robot = RoboMaster::new();
    robot.initialize();
    robot.shutdown();
}
