use robomaster_rust::can::{increment_counter, CommandCounters, MessageSplitter};

#[test]
fn test_message_splitter_exact_size() {
    let command = vec![1, 2, 3, 4, 5, 6, 7, 8];
    let result = MessageSplitter::split_command(&command);
    assert_eq!(result.len(), 1);
    assert_eq!(result[0], command);
}

#[test]
fn test_message_splitter_multiple_frames() {
    let command = vec![1, 2, 3, 4, 5, 6, 7, 8, 9, 10, 11, 12];
    let result = MessageSplitter::split_command(&command);
    assert_eq!(result.len(), 2);
    assert_eq!(result[0], vec![1, 2, 3, 4, 5, 6, 7, 8]);
    assert_eq!(result[1], vec![9, 10, 11, 12]);
}

#[test]
fn test_message_splitter_uneven_split() {
    let command = vec![1, 2, 3, 4, 5, 6, 7, 8, 9];
    let result = MessageSplitter::split_command(&command);
    assert_eq!(result.len(), 2);
    assert_eq!(result[0], vec![1, 2, 3, 4, 5, 6, 7, 8]);
    assert_eq!(result[1], vec![9]);
}

#[test]
fn test_command_counters_default() {
    let counters = CommandCounters::default();
    assert_eq!(counters.joy, 0);
    assert_eq!(counters.led, 0);
    assert_eq!(counters.gimbal, 0);
}

#[test]
fn splitter_empty_command_yields_no_frames() {
    let command: Vec<u8> = vec![];
    let result = MessageSplitter::split_command(&command);
    assert_eq!(result.len(), 0);
}

#[test]
fn splitter_frames_concatenate_to_original() {
    let command: Vec<u8> = (0..35).collect();
    let result = MessageSplitter::split_command(&command);
    assert_eq!(result.len(), 5);
    let mut joined: Vec<u8> = Vec::new();
    for frame in &result {
        assert!(frame.len() <= 8 && !frame.is_empty());
        joined.extend_from_slice(frame);
    }
    assert_eq!(joined, command);
}

#[test]
fn counter_increment_wraps_after_full_cycle() {
    let start: u16 = 7;
    let mut c = start;
    for _ in 0..65536u32 {
        c = increment_counter(c);
    }
    assert_eq!(c, start);
}

#[test]
fn counter_increment_wraps_at_max() {
    assert_eq!(increment_counter(0xFFFF), 0);
    assert_eq!(increment_counter(0), 1);
}

#[test]
fn telemetry_frame_resynchronizes_joy_counter() {
    let mut counters = CommandCounters::default();
    let data = vec![0x55, 0x1b, 0x04, 0x75, 0x09, 0xc3, 0x34, 0x12];
    counters.process_telemetry_frame(0x201, &data);
    assert_eq!(counters.joy, 0x1234 + 1);
    assert_eq!(counters.led, 0);
    assert_eq!(counters.gimbal, 0);
}

#[test]
fn telemetry_counter_at_max_wraps_to_zero() {
    let mut counters = CommandCounters::default();
    let data = vec![0x55, 0x1b, 0x04, 0x75, 0x09, 0xc3, 0xFF, 0xFF];
    counters.process_telemetry_frame(0x201, &data);
    assert_eq!(counters.joy, 0);
}

#[test]
fn telemetry_with_wrong_id_is_ignored() {
    let mut counters = CommandCounters::default();
    let data = vec![0x55, 0x1b, 0x04, 0x75, 0x09, 0xc3, 0x34, 0x12];
    counters.process_telemetry_frame(0x202, &data);
    assert_eq!(counters.joy, 0);
}

#[test]
fn telemetry_with_wrong_marker_is_ignored() {
    let mut counters = CommandCounters::default();
    let data = vec![0x55, 0x1b, 0x04, 0x75, 0x09, 0xc4, 0x34, 0x12];
    counters.process_telemetry_frame(0x201, &data);
    assert_eq!(counters.joy, 0);
}

#[test]
fn telemetry_too_short_is_ignored() {
    let mut counters = CommandCounters::default();
    let data = vec![0x55, 0x1b, 0x04, 0x75, 0x09, 0xc3, 0x34];
    counters.process_telemetry_frame(0x201, &data);
    assert_eq!(counters.joy, 0);
}
