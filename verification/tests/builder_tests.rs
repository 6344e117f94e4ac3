use robomaster_rust::builder::{CommandBuilder, GimbalParams, LedColor, MovementParams};
use robomaster_rust::can::CommandCounters;
use robomaster_rust::crc16::{verify_crc16_checksum, CRC16_INIT};

#[test]
fn test_command_builder_creation() {
    let builder = CommandBuilder::new();
    assert_eq!(builder.command_count(), 38);
}

#[test]
fn test_led_color_command() {
    let builder = CommandBuilder::new();
    let color = LedColor { red: 255, green: 128, blue: 64 };
    let counters = CommandCounters::default();

    let result = builder.build_led_command(color, &counters);
    assert!(result.is_ok());

    let cmd = result.unwrap();
    assert!(!cmd.is_empty());
    assert_eq!(cmd[0], 0x55);

    assert!(cmd.contains(&255));
    assert!(cmd.contains(&128));
    assert!(cmd.contains(&64));
}

#[test]
fn test_movement_params() {
    let vx = 1.0f32;
    let vy = 0.5f32;
    let vz = -0.5f32;
    let params = MovementParams {
        vx: (256.0 * vx + 1024.0) as i32,
        vy: (256.0 * vy + 1024.0) as i32,
        vz: (256.0 * vz + 1024.0) as i32,
    };

    let builder = CommandBuilder::new();
    let counters = CommandCounters::default();

    let result = builder.build_twist_command(params, &counters);
    assert!(result.is_ok());

    let cmd = result.unwrap();
    assert!(!cmd.is_empty());
    assert_eq!(cmd[0], 0x55);
}

#[test]
fn test_gimbal_params() {
    let ry = 0.1f32;
    let rz = -0.2f32;
    let params = GimbalParams { ry: (-1024.0 * ry) as i16, rz: (-1024.0 * rz) as i16 };

    let builder = CommandBuilder::new();
    let counters = CommandCounters::default();

    let result = builder.build_gimbal_command(params, &counters);
    assert!(result.is_ok());

    let cmd = result.unwrap();
    assert!(!cmd.is_empty());
    assert_eq!(cmd[0], 0x55);
}

#[test]
fn test_boot_sequence() {
    let builder = CommandBuilder::new();
    let result = builder.build_boot_sequence();
    assert!(result.is_ok());

    let cmd = result.unwrap();
    assert!(!cmd.is_empty());
}

#[test]
fn test_touch_command() {
    let builder = CommandBuilder::new();
    let counters = CommandCounters::default();

    let result = builder.build_touch_command(&counters);
    assert!(result.is_ok());

    let msgs = result.unwrap();
    assert_eq!(msgs.len(), 2);
    assert_eq!(msgs[0][0], 0x55);
    assert_eq!(msgs[1][0], 0x40);
}

#[test]
fn test_invalid_command_index() {
    let builder = CommandBuilder::new();
    let result = builder.get_command_template(999);
    assert!(result.is_err());
}

#[test]
fn led_command_exact_bytes() {
    let builder = CommandBuilder::new();
    let color = LedColor { red: 255, green: 128, blue: 64 };
    let counters = CommandCounters::default();
    let cmd = builder.build_led_command(color, &counters).unwrap();
    assert_eq!(
        cmd,
        vec![85, 19, 4, 3, 9, 4, 0, 0, 0, 0, 0, 0, 0, 0, 255, 128, 64, 221, 119]
    );
}

#[test]
fn twist_command_exact_bytes() {
    let builder = CommandBuilder::new();
    let params = MovementParams { vx: 1280, vy: 1152, vz: 896 };
    let counters = CommandCounters::default();
    let cmd = builder.build_twist_command(params, &counters).unwrap();
    assert_eq!(
        cmd,
        vec![
            85, 27, 4, 117, 9, 4, 0, 0, 64, 4, 76, 128, 4, 40, 0, 0, 8, 56, 0, 2, 14, 4, 12, 0,
            4, 131, 125
        ]
    );
}

#[test]
fn gimbal_command_exact_bytes() {
    let builder = CommandBuilder::new();
    let params = GimbalParams { ry: -102, rz: 204 };
    let counters = CommandCounters::default();
    let cmd = builder.build_gimbal_command(params, &counters).unwrap();
    assert_eq!(
        cmd,
        vec![85, 19, 4, 3, 9, 4, 0, 0, 0, 0, 0, 0, 0, 154, 255, 204, 0, 126, 232]
    );
}

#[test]
fn twist_axis_values_are_clamped() {
    let builder = CommandBuilder::new();
    let counters = CommandCounters::default();
    let high = builder
        .build_twist_command(MovementParams { vx: 999999, vy: 1024, vz: 1024 }, &counters)
        .unwrap();
    let top = builder
        .build_twist_command(MovementParams { vx: 2047, vy: 1024, vz: 1024 }, &counters)
        .unwrap();
    assert_eq!(high, top);

    let low = builder
        .build_twist_command(MovementParams { vx: -5, vy: 1024, vz: 1024 }, &counters)
        .unwrap();
    let bottom = builder
        .build_twist_command(MovementParams { vx: 0, vy: 1024, vz: 1024 }, &counters)
        .unwrap();
    assert_eq!(low, bottom);
}

#[test]
fn boot_sequence_exact_layout() {
    let builder = CommandBuilder::new();
    let boot = builder.build_boot_sequence().unwrap();
    assert_eq!(boot.len(), 150);
    assert_eq!(
        &boot[0..15],
        &[85, 15, 4, 162, 9, 4, 0, 0, 0, 0, 0, 0, 0, 208, 32]
    );
    for chunk in boot.chunks(15) {
        assert!(verify_crc16_checksum(&chunk.to_vec(), CRC16_INIT));
    }
}

#[test]
fn touch_trailer_covers_concatenation_of_both_frames() {
    let builder = CommandBuilder::new();
    let counters = CommandCounters { joy: 0x3412, led: 0, gimbal: 0 };
    let msgs = builder.build_touch_command(&counters).unwrap();
    assert_eq!(msgs[0], vec![0x55, 0x0f, 0x04, 0xa2, 0x09, 0x04, 0x12, 0x34]);
    assert_eq!(msgs[1], vec![0x40, 0x04, 0x4c, 0x00, 0x00, 197, 101]);

    let mut combined = msgs[0].clone();
    combined.extend_from_slice(&msgs[1]);
    assert!(verify_crc16_checksum(&combined, CRC16_INIT));

    // The trailer of the second frame covers both frames, not the second
    // frame alone.
    assert!(!verify_crc16_checksum(&msgs[1], CRC16_INIT));
}

#[test]
fn build_with_unknown_identifier_fails() {
    let builder = CommandBuilder::new();
    let result = builder.build_command_with_counter(999, 0);
    assert!(result.is_err());
    let result = builder.build_command_from_template(38, &CommandCounters::default());
    assert!(result.is_err());
}

#[test]
fn counter_is_embedded_little_endian() {
    let builder = CommandBuilder::new();
    let cmd = builder.build_command_with_counter(3, 0xBEEF).unwrap();
    assert_eq!(cmd[6], 0xEF);
    assert_eq!(cmd[7], 0xBE);
}
