//! Command builder: walks a template and substitutes the running CRC8, the
//! family's sequence counter and the command parameters in place, then
//! appends the trailing CRC16.
//!
//! Axis parameters arrive as fixed-point integers.  A chassis axis value is
//! `256 * v + 1024` for a normalized speed `v` in [-1, 1] (1024 is the
//! neutral stick); the builder clamps it into the 11-bit range 0..=2047.  A
//! gimbal axis value is `-1024 * r` for a normalized rotation `r`, as a
//! signed 16-bit value.  The caller performs those conversions before entry.

use vstd::prelude::*;
use crate::can::CommandCounters;
use crate::command::{
    BOOT_FIRST, BOOT_LAST, COMMAND_COUNT, GIMBAL, LED_COLOR, LED_ON, TWIST, get_command_length,
    get_command_table, is_counter_position, is_crc8_position, template_byte, template_header,
    template_len, template_spec,
};
use crate::crc16::{CRC16_INIT, append_crc16_checksum, crc16_appended, crc16_hi, crc16_lo, crc16_of, get_crc16_checksum};
use crate::crc8::{append_crc8_checksum, crc8_of};
use crate::error::{ProtocolError, RoboMasterError};

verus! {

/// Movement command parameters: fixed-point chassis axis values, 1024 when
/// the axis is at rest.
#[derive(Debug, Clone, Copy)]
pub struct MovementParams {
    /// Linear velocity X (forward/backward).
    pub vx: i32,
    /// Linear velocity Y (left/right).
    pub vy: i32,
    /// Angular velocity Z (rotation).
    pub vz: i32,
}

/// The fixed-point value of an axis at rest.
pub const AXIS_NEUTRAL: i32 = 1024;

impl Default for MovementParams {
    /// All axes at rest.
    fn default() -> (p: Self)
        ensures
            p.vx == AXIS_NEUTRAL && p.vy == AXIS_NEUTRAL && p.vz == AXIS_NEUTRAL,
    {
        Self { vx: AXIS_NEUTRAL, vy: AXIS_NEUTRAL, vz: AXIS_NEUTRAL }
    }
}

/// Gimbal command parameters: signed 16-bit fixed-point rotations.
#[derive(Debug, Clone, Copy)]
pub struct GimbalParams {
    /// Rotation around Y axis (pitch).
    pub ry: i16,
    /// Rotation around Z axis (yaw).
    pub rz: i16,
}

/// LED color parameters.
#[derive(Debug, Clone, Copy, PartialEq, Eq, Structural)]
pub struct LedColor {
    pub red: u8,
    pub green: u8,
    pub blue: u8,
}

impl Default for LedColor {
    /// Off: all components zero.
    fn default() -> (c: Self)
        ensures
            c.red == 0 && c.green == 0 && c.blue == 0,
    {
        Self { red: 0, green: 0, blue: 0 }
    }
}

/// An axis value clamped into the 11-bit range of the twist encoding.
pub open spec fn clamp_11bit(v: int) -> u16 {
    if v < 0 {
        0u16
    } else if v > 2047 {
        2047u16
    } else {
        v as u16
    }
}

/// Low byte of a little-endian counter field.
pub open spec fn counter_lo(counter: u16) -> u8 {
    (counter & 0xFF) as u8
}

/// High byte of a little-endian counter field.
pub open spec fn counter_hi(counter: u16) -> u8 {
    ((counter >> 8) & 0xFF) as u8
}

/// Byte `i` of a command body built from the bare template: only the CRC8
/// marker is substituted.
pub open spec fn plain_body_byte(id: int, i: int) -> u8 {
    if i == 3 {
        crc8_of(template_header(id))
    } else {
        template_byte(id, i)
    }
}

/// A command body built from the bare template, trailer not yet appended.
pub open spec fn plain_body(id: int) -> Seq<u8> {
    Seq::new((template_len(id) - 2) as nat, |i: int| plain_body_byte(id, i))
}

/// A finished command built from the bare template.
pub open spec fn plain_command(id: int) -> Seq<u8> {
    crc16_appended(plain_body(id), CRC16_INIT)
}

/// Byte `i` of a command body with a counter substituted at offsets 6..=7.
pub open spec fn counter_body_byte(id: int, counter: u16, i: int) -> u8 {
    if i == 3 {
        crc8_of(template_header(id))
    } else if i == 6 {
        counter_lo(counter)
    } else if i == 7 {
        counter_hi(counter)
    } else {
        template_byte(id, i)
    }
}

/// A command body with a counter, trailer not yet appended.
pub open spec fn counter_body(id: int, counter: u16) -> Seq<u8> {
    Seq::new((template_len(id) - 2) as nat, |i: int| counter_body_byte(id, counter, i))
}

/// A finished command with a counter.
pub open spec fn counter_command(id: int, counter: u16) -> Seq<u8> {
    crc16_appended(counter_body(id, counter), CRC16_INIT)
}

/// Byte `i` of a twist command body for clamped axis values `lx`, `ly`,
/// `az` and the joystick counter.  The three 11-bit values are packed
/// across fixed offsets with shifts and masks; the fixed bytes at offsets
/// 18 and 21..=24 flag which axes are active.
pub open spec fn twist_body_byte(lx: u16, ly: u16, az: u16, counter: u16, i: int) -> u8 {
    if i == 3 {
        crc8_of(template_header(TWIST as int))
    } else if i == 6 {
        counter_lo(counter)
    } else if i == 7 {
        counter_hi(counter)
    } else if i == 11 {
        (ly & 0xFF) as u8
    } else if i == 12 {
        (((lx << 3) & 0xFF) | ((ly >> 8) & 0x07)) as u8
    } else if i == 13 {
        (template_byte(TWIST as int, 13) & 0xC0) | (((lx >> 5) & 0x3F) as u8)
    } else if i == 16 {
        (((az << 4) & 0xFF) | 0x08) as u8
    } else if i == 17 {
        ((az >> 4) & 0xFF) as u8
    } else if i == 18 {
        0x00
    } else if i == 19 {
        (0x02 | ((az << 2) & 0xFF)) as u8
    } else if i == 20 {
        ((az >> 6) & 0xFF) as u8
    } else if i == 21 {
        0x04
    } else if i == 22 {
        0x0C
    } else if i == 23 {
        0x00
    } else if i == 24 {
        0x04
    } else {
        template_byte(TWIST as int, i)
    }
}

/// A twist command body, trailer not yet appended.
pub open spec fn twist_body(lx: u16, ly: u16, az: u16, counter: u16) -> Seq<u8> {
    Seq::new((template_len(TWIST as int) - 2) as nat, |i: int| twist_body_byte(lx, ly, az, counter, i))
}

/// A finished twist command.
pub open spec fn twist_command(lx: u16, ly: u16, az: u16, counter: u16) -> Seq<u8> {
    crc16_appended(twist_body(lx, ly, az, counter), CRC16_INIT)
}

/// Byte `i` of a gimbal command body for encoded rotations `ay` (pitch) and
/// `az` (yaw) and the gimbal counter.  Each rotation is split little-endian
/// across two offsets.
pub open spec fn gimbal_body_byte(ay: i16, az: i16, counter: u16, i: int) -> u8 {
    if i == 3 {
        crc8_of(template_header(GIMBAL as int))
    } else if i == 6 {
        counter_lo(counter)
    } else if i == 7 {
        counter_hi(counter)
    } else if i == 13 {
        (ay & 0xFF) as u8
    } else if i == 14 {
        ((ay >> 8) & 0xFF) as u8
    } else if i == 15 {
        (az & 0xFF) as u8
    } else if i == 16 {
        ((az >> 8) & 0xFF) as u8
    } else {
        template_byte(GIMBAL as int, i)
    }
}

/// A gimbal command body, trailer not yet appended.
pub open spec fn gimbal_body(ay: i16, az: i16, counter: u16) -> Seq<u8> {
    Seq::new((template_len(GIMBAL as int) - 2) as nat, |i: int| gimbal_body_byte(ay, az, counter, i))
}

/// A finished gimbal command.
pub open spec fn gimbal_command(ay: i16, az: i16, counter: u16) -> Seq<u8> {
    crc16_appended(gimbal_body(ay, az, counter), CRC16_INIT)
}

/// Byte `i` of an LED color command body: red, green and blue are written
/// unmodified at offsets 14..=16, the LED counter at 6..=7.
pub open spec fn led_body_byte(color: LedColor, counter: u16, i: int) -> u8 {
    if i == 3 {
        crc8_of(template_header(LED_COLOR as int))
    } else if i == 6 {
        counter_lo(counter)
    } else if i == 7 {
        counter_hi(counter)
    } else if i == 14 {
        color.red
    } else if i == 15 {
        color.green
    } else if i == 16 {
        color.blue
    } else {
        template_byte(LED_COLOR as int, i)
    }
}

/// An LED color command body, trailer not yet appended.
pub open spec fn led_body(color: LedColor, counter: u16) -> Seq<u8> {
    Seq::new((template_len(LED_COLOR as int) - 2) as nat, |i: int| led_body_byte(color, counter, i))
}

/// A finished LED color command.
pub open spec fn led_command(color: LedColor, counter: u16) -> Seq<u8> {
    crc16_appended(led_body(color, counter), CRC16_INIT)
}

/// The first touch frame: a fixed header carrying the joystick counter at
/// offsets 6..=7.
pub open spec fn touch_first(counter: u16) -> Seq<u8> {
    seq![0x55u8, 0x0f, 0x04, 0xa2, 0x09, 0x04, counter_lo(counter), counter_hi(counter)]
}

/// The fixed payload of the second touch frame, before its trailer.
pub open spec fn touch_second_payload() -> Seq<u8> {
    seq![0x40u8, 0x04, 0x4c, 0x00, 0x00]
}

/// Both touch frames concatenated, without the trailer: the checksum runs
/// over exactly these bytes.
pub open spec fn touch_combined(counter: u16) -> Seq<u8> {
    touch_first(counter) + touch_second_payload()
}

/// The second touch frame: the fixed payload followed by the trailer of
/// the concatenation of both frames.
pub open spec fn touch_second(counter: u16) -> Seq<u8> {
    touch_second_payload() + seq![
        crc16_lo(crc16_of(touch_combined(counter), CRC16_INIT)),
        crc16_hi(crc16_of(touch_combined(counter), CRC16_INIT)),
    ]
}

/// The trailer of the second touch frame is the checksum of the
/// concatenation of both frames, not of the second frame alone: the two
/// frames joined verify as one buffer.
pub proof fn lemma_touch_trailer_spans_both_frames(counter: u16)
    ensures
        crate::crc16::crc16_valid(touch_first(counter) + touch_second(counter), CRC16_INIT),
{
    assert(touch_first(counter) + touch_second(counter) =~= crc16_appended(
        touch_combined(counter),
        CRC16_INIT,
    ));
    crate::crc16::lemma_appended_valid(touch_combined(counter), CRC16_INIT);
}

/// The whole boot sequence for the first `k` commands of the boot range.
pub open spec fn boot_prefix(k: nat) -> Seq<u8>
    decreases k,
{
    if k == 0 {
        Seq::empty()
    } else {
        boot_prefix((k - 1) as nat) + plain_command(BOOT_FIRST + k - 1)
    }
}

/// The boot sequence: the nine commands of the boot range, each built with
/// a zeroed counter, followed by one LED on command.
pub open spec fn boot_sequence() -> Seq<u8> {
    boot_prefix((BOOT_LAST - BOOT_FIRST + 1) as nat) + counter_command(LED_ON as int, 0)
}

/// Command builder for creating protocol messages.
pub struct CommandBuilder {
    command_table: Vec<Vec<u8>>,
}

impl CommandBuilder {
    /// The table holds one template per command identifier.
    #[verifier::type_invariant]
    spec fn wf(self) -> bool {
        &&& self.command_table@.len() == COMMAND_COUNT
        &&& forall|id: int|
            0 <= id < COMMAND_COUNT ==> (#[trigger] self.command_table@[id])@ == template_spec(id)
    }

    /// Create a new command builder.
    pub fn new() -> (b: Self) {
        Self { command_table: get_command_table() }
    }

    /// Number of templates in the table.
    pub fn command_count(&self) -> (n: usize)
        ensures
            n == COMMAND_COUNT,
    {
        proof {
            use_type_invariant(&*self);
        }
        self.command_table.len()
    }

    /// Get a command template by identifier; fails for an identifier
    /// outside the table.
    pub fn get_command_template(&self, command_no: usize) -> (r: Result<&Vec<u8>, RoboMasterError>)
        ensures
            command_no < COMMAND_COUNT ==> (r matches Ok(t) && t@ == template_spec(
                command_no as int,
            )),
            command_no >= COMMAND_COUNT ==> (r matches Err(RoboMasterError::Protocol(
                ProtocolError::CommandNotFound { command_id },
            )) && command_id == command_no),
    {
        proof {
            use_type_invariant(&*self);
        }
        if command_no < self.command_table.len() {
            Ok(&self.command_table[command_no])
        } else {
            Err(RoboMasterError::Protocol(ProtocolError::CommandNotFound {
                command_id: command_no,
            }))
        }
    }

    /// Build a command from the bare template: the CRC8 marker is filled,
    /// every other byte is copied, and the trailer is appended.
    pub fn build_command_from_template(&self, command_no: usize, _counters: &CommandCounters) -> (r:
        Result<Vec<u8>, RoboMasterError>)
        ensures
            command_no < COMMAND_COUNT ==> (r matches Ok(cmd) && cmd@ == plain_command(
                command_no as int,
            )),
            command_no >= COMMAND_COUNT ==> (r matches Err(RoboMasterError::Protocol(
                ProtocolError::CommandNotFound { command_id },
            )) && command_id == command_no),
    {
        let template = match self.get_command_template(command_no) {
            Ok(t) => t,
            Err(e) => {
                return Err(e);
            },
        };
        let command_length = match get_command_length(template) {
            Some(l) => l,
            None => {
                return Err(
                    RoboMasterError::Protocol(
                        ProtocolError::InvalidCommandLength { command_id: command_no },
                    ),
                );
            },
        };
        let ghost id = command_no as int;
        let mut header_command: Vec<u8> = Vec::new();
        let mut i: usize = 0;
        while i < command_length - 2
            invariant
                0 <= i <= command_length - 2,
                command_no < COMMAND_COUNT,
                id == command_no as int,
                command_length == template_len(id),
                template@ == template_spec(id),
                header_command@ == plain_body(id).take(i as int),
            decreases command_length - 2 - i,
        {
            if is_crc8_position(template, i) {
                proof {
                    assert(plain_body(id).take(3) =~= template_header(id));
                }
                append_crc8_checksum(&mut header_command);
            } else {
                header_command.push(template[i]);
            }
            proof {
                assert(plain_body(id).take(i + 1) =~= plain_body(id).take(i as int) + seq![
                    plain_body_byte(id, i as int),
                ]);
            }
            i = i + 1;
        }
        proof {
            assert(plain_body(id).take(command_length - 2) =~= plain_body(id));
        }
        append_crc16_checksum(&mut header_command, CRC16_INIT);
        Ok(header_command)
    }

    /// Build a command with a counter substituted little-endian at offsets
    /// 6..=7.
    pub fn build_command_with_counter(&self, command_no: usize, counter: u16) -> (r: Result<
        Vec<u8>,
        RoboMasterError,
    >)
        ensures
            command_no < COMMAND_COUNT ==> (r matches Ok(cmd) && cmd@ == counter_command(
                command_no as int,
                counter,
            )),
            command_no >= COMMAND_COUNT ==> (r matches Err(RoboMasterError::Protocol(
                ProtocolError::CommandNotFound { command_id },
            )) && command_id == command_no),
    {
        let template = match self.get_command_template(command_no) {
            Ok(t) => t,
            Err(e) => {
                return Err(e);
            },
        };
        let command_length = match get_command_length(template) {
            Some(l) => l,
            None => {
                return Err(
                    RoboMasterError::Protocol(
                        ProtocolError::InvalidCommandLength { command_id: command_no },
                    ),
                );
            },
        };
        let ghost id = command_no as int;
        let mut header_command: Vec<u8> = Vec::new();
        let mut i: usize = 0;
        while i < command_length - 2
            invariant
                0 <= i <= command_length - 2,
                command_no < COMMAND_COUNT,
                id == command_no as int,
                command_length == template_len(id),
                template@ == template_spec(id),
                header_command@ == counter_body(id, counter).take(i as int),
            decreases command_length - 2 - i,
        {
            if is_crc8_position(template, i) {
                proof {
                    assert(counter_body(id, counter).take(3) =~= template_header(id));
                }
                append_crc8_checksum(&mut header_command);
            } else if is_counter_position(template, i) {
                if i == 6 {
                    header_command.push((counter & 0xFF) as u8);
                } else if i == 7 {
                    header_command.push(((counter >> 8) & 0xFF) as u8);
                }
            } else {
                header_command.push(template[i]);
            }
            proof {
                assert(counter_body(id, counter).take(i + 1) =~= counter_body(id, counter).take(
                    i as int,
                ) + seq![counter_body_byte(id, counter, i as int)]);
            }
            i = i + 1;
        }
        proof {
            assert(counter_body(id, counter).take(command_length - 2) =~= counter_body(
                id,
                counter,
            ));
        }
        append_crc16_checksum(&mut header_command, CRC16_INIT);
        Ok(header_command)
    }

    /// Build the LED on command with the LED counter.
    pub fn build_led_on_command(&self, counters: &CommandCounters) -> (r: Result<
        Vec<u8>,
        RoboMasterError,
    >)
        ensures
            r matches Ok(cmd) && cmd@ == counter_command(LED_ON as int, counters.led),
    {
        self.build_command_with_counter(LED_ON, counters.led)
    }

    /// Build the boot sequence: the commands of the boot range, each with a
    /// zeroed counter, followed by one LED on command.
    pub fn build_boot_sequence(&self) -> (r: Result<Vec<u8>, RoboMasterError>)
        ensures
            r matches Ok(cmd) && cmd@ == boot_sequence(),
    {
        let zero_counters = CommandCounters::default();
        let mut boot_commands: Vec<u8> = Vec::new();
        let mut command_no: usize = BOOT_FIRST;
        while command_no <= BOOT_LAST
            invariant
                BOOT_FIRST <= command_no <= BOOT_LAST + 1,
                boot_commands@ == boot_prefix((command_no - BOOT_FIRST) as nat),
            decreases BOOT_LAST + 1 - command_no,
        {
            let mut cmd = match self.build_command_from_template(command_no, &zero_counters) {
                Ok(c) => c,
                Err(e) => {
                    return Err(e);
                },
            };
            boot_commands.append(&mut cmd);
            command_no = command_no + 1;
        }
        let mut led_on_cmd = match self.build_led_on_command(&zero_counters) {
            Ok(c) => c,
            Err(e) => {
                return Err(e);
            },
        };
        boot_commands.append(&mut led_on_cmd);
        Ok(boot_commands)
    }

    /// Build the LED color command: red, green and blue written unmodified
    /// at their fixed offsets, the LED counter at 6..=7.
    pub fn build_led_command(&self, color: LedColor, counters: &CommandCounters) -> (r: Result<
        Vec<u8>,
        RoboMasterError,
    >)
        ensures
            r matches Ok(cmd) && cmd@ == led_command(color, counters.led),
    {
        let command_no = LED_COLOR;
        let template = match self.get_command_template(command_no) {
            Ok(t) => t,
            Err(e) => {
                return Err(e);
            },
        };
        let command_length = match get_command_length(template) {
            Some(l) => l,
            None => {
                return Err(
                    RoboMasterError::Protocol(
                        ProtocolError::InvalidCommandLength { command_id: command_no },
                    ),
                );
            },
        };
        let mut header_command: Vec<u8> = Vec::new();
        let mut i: usize = 0;
        while i < command_length - 2
            invariant
                0 <= i <= command_length - 2,
                command_length == template_len(LED_COLOR as int),
                template@ == template_spec(LED_COLOR as int),
                header_command@ == led_body(color, counters.led).take(i as int),
            decreases command_length - 2 - i,
        {
            if is_crc8_position(template, i) {
                proof {
                    assert(led_body(color, counters.led).take(3) =~= template_header(
                        LED_COLOR as int,
                    ));
                }
                append_crc8_checksum(&mut header_command);
            } else if is_counter_position(template, i) {
                if i == 6 {
                    header_command.push((counters.led & 0xFF) as u8);
                } else if i == 7 {
                    header_command.push(((counters.led >> 8) & 0xFF) as u8);
                }
            } else if i == 14 {
                header_command.push(color.red);
            } else if i == 15 {
                header_command.push(color.green);
            } else if i == 16 {
                header_command.push(color.blue);
            } else {
                header_command.push(template[i]);
            }
            proof {
                assert(led_body(color, counters.led).take(i + 1) =~= led_body(
                    color,
                    counters.led,
                ).take(i as int) + seq![led_body_byte(color, counters.led, i as int)]);
            }
            i = i + 1;
        }
        proof {
            assert(led_body(color, counters.led).take(command_length - 2) =~= led_body(
                color,
                counters.led,
            ));
        }
        append_crc16_checksum(&mut header_command, CRC16_INIT);
        Ok(header_command)
    }

    /// Build the twist (movement) command.  Each axis value is clamped into
    /// the 11-bit range and the three values are packed across the fixed
    /// parameter offsets.
    pub fn build_twist_command(&self, params: MovementParams, counters: &CommandCounters) -> (r:
        Result<Vec<u8>, RoboMasterError>)
        ensures
            r matches Ok(cmd) && cmd@ == twist_command(
                clamp_11bit(params.vx as int),
                clamp_11bit(params.vy as int),
                clamp_11bit(params.vz as int),
                counters.joy,
            ),
    {
        let command_no = TWIST;
        let template = match self.get_command_template(command_no) {
            Ok(t) => t,
            Err(e) => {
                return Err(e);
            },
        };
        let command_length = match get_command_length(template) {
            Some(l) => l,
            None => {
                return Err(
                    RoboMasterError::Protocol(
                        ProtocolError::InvalidCommandLength { command_id: command_no },
                    ),
                );
            },
        };
        let linear_x = clamp_axis(params.vx);
        let linear_y = clamp_axis(params.vy);
        let angular_z = clamp_axis(params.vz);
        let ghost lx = clamp_11bit(params.vx as int);
        let ghost ly = clamp_11bit(params.vy as int);
        let ghost az = clamp_11bit(params.vz as int);
        let joy = counters.joy;
        let mut header_command: Vec<u8> = Vec::new();
        let mut i: usize = 0;
        while i < command_length - 2
            invariant
                0 <= i <= command_length - 2,
                command_length == template_len(TWIST as int),
                template@ == template_spec(TWIST as int),
                linear_x == lx && linear_y == ly && angular_z == az,
                joy == counters.joy,
                header_command@ == twist_body(lx, ly, az, joy).take(i as int),
            decreases command_length - 2 - i,
        {
            if is_crc8_position(template, i) {
                proof {
                    assert(twist_body(lx, ly, az, joy).take(3) =~= template_header(TWIST as int));
                }
                append_crc8_checksum(&mut header_command);
            } else if is_counter_position(template, i) {
                if i == 6 {
                    header_command.push((joy & 0xFF) as u8);
                } else if i == 7 {
                    header_command.push(((joy >> 8) & 0xFF) as u8);
                }
            } else if i == 13 {
                let tmp = (template[i] & 0xC0) | (((linear_x >> 5) & 0x3F) as u8);
                header_command.push(tmp);
            } else if i == 12 {
                let tmp = ((linear_x << 3) & 0xFF) | ((linear_y >> 8) & 0x07);
                header_command.push(tmp as u8);
            } else if i == 11 {
                header_command.push((linear_y & 0xFF) as u8);
            } else if i == 17 {
                header_command.push(((angular_z >> 4) & 0xFF) as u8);
            } else if i == 16 {
                let tmp = ((angular_z << 4) & 0xFF) | 0x08;
                header_command.push(tmp as u8);
            } else if i == 18 {
                header_command.push(0x00);
            } else if i == 19 {
                let tmp = 0x02 | ((angular_z << 2) & 0xFF);
                header_command.push(tmp as u8);
            } else if i == 20 {
                header_command.push(((angular_z >> 6) & 0xFF) as u8);
            } else if i == 21 {
                header_command.push(0x04);
            } else if i == 22 {
                header_command.push(0x0C);
            } else if i == 23 {
                header_command.push(0x00);
            } else if i == 24 {
                header_command.push(0x04);
            } else {
                header_command.push(template[i]);
            }
            proof {
                assert(twist_body(lx, ly, az, joy).take(i + 1) =~= twist_body(lx, ly, az, joy).take(
                    i as int,
                ) + seq![twist_body_byte(lx, ly, az, joy, i as int)]);
            }
            i = i + 1;
        }
        proof {
            assert(twist_body(lx, ly, az, joy).take(command_length - 2) =~= twist_body(
                lx,
                ly,
                az,
                joy,
            ));
        }
        append_crc16_checksum(&mut header_command, CRC16_INIT);
        Ok(header_command)
    }

    /// Build the gimbal command.  Each rotation is split little-endian
    /// across two fixed offsets, pitch first, then yaw.
    pub fn build_gimbal_command(&self, params: GimbalParams, counters: &CommandCounters) -> (r:
        Result<Vec<u8>, RoboMasterError>)
        ensures
            r matches Ok(cmd) && cmd@ == gimbal_command(params.ry, params.rz, counters.gimbal),
    {
        let command_no = GIMBAL;
        let template = match self.get_command_template(command_no) {
            Ok(t) => t,
            Err(e) => {
                return Err(e);
            },
        };
        let command_length = match get_command_length(template) {
            Some(l) => l,
            None => {
                return Err(
                    RoboMasterError::Protocol(
                        ProtocolError::InvalidCommandLength { command_id: command_no },
                    ),
                );
            },
        };
        let angular_y = params.ry;
        let angular_z = params.rz;
        let gimbal = counters.gimbal;
        let mut header_command: Vec<u8> = Vec::new();
        let mut i: usize = 0;
        while i < command_length - 2
            invariant
                0 <= i <= command_length - 2,
                command_length == template_len(GIMBAL as int),
                template@ == template_spec(GIMBAL as int),
                angular_y == params.ry && angular_z == params.rz,
                gimbal == counters.gimbal,
                header_command@ == gimbal_body(angular_y, angular_z, gimbal).take(i as int),
            decreases command_length - 2 - i,
        {
            if is_crc8_position(template, i) {
                proof {
                    assert(gimbal_body(angular_y, angular_z, gimbal).take(3) =~= template_header(
                        GIMBAL as int,
                    ));
                }
                append_crc8_checksum(&mut header_command);
            } else if is_counter_position(template, i) {
                if i == 6 {
                    header_command.push((gimbal & 0xFF) as u8);
                } else if i == 7 {
                    header_command.push(((gimbal >> 8) & 0xFF) as u8);
                }
            } else if i == 14 {
                header_command.push(((angular_y >> 8) & 0xFF) as u8);
            } else if i == 13 {
                header_command.push((angular_y & 0xFF) as u8);
            } else if i == 16 {
                header_command.push(((angular_z >> 8) & 0xFF) as u8);
            } else if i == 15 {
                header_command.push((angular_z & 0xFF) as u8);
            } else {
                header_command.push(template[i]);
            }
            proof {
                assert(gimbal_body(angular_y, angular_z, gimbal).take(i + 1) =~= gimbal_body(
                    angular_y,
                    angular_z,
                    gimbal,
                ).take(i as int) + seq![
                    gimbal_body_byte(angular_y, angular_z, gimbal, i as int),
                ]);
            }
            i = i + 1;
        }
        proof {
            assert(gimbal_body(angular_y, angular_z, gimbal).take(command_length - 2)
                =~= gimbal_body(angular_y, angular_z, gimbal));
        }
        append_crc16_checksum(&mut header_command, CRC16_INIT);
        Ok(header_command)
    }

    /// Build the two-frame touch command.  The trailer appended to the
    /// second frame is the checksum of the concatenation of both frames.
    pub fn build_touch_command(&self, counters: &CommandCounters) -> (r: Result<
        Vec<Vec<u8>>,
        RoboMasterError,
    >)
        ensures
            r matches Ok(msgs) && msgs@.len() == 2 && msgs@[0]@ == touch_first(counters.joy)
                && msgs@[1]@ == touch_second(counters.joy),
    {
        let mut first: Vec<u8> = Vec::new();
        first.push(0x55);
        first.push(0x0f);
        first.push(0x04);
        first.push(0xa2);
        first.push(0x09);
        first.push(0x04);
        first.push((counters.joy & 0xFF) as u8);
        first.push(((counters.joy >> 8) & 0xFF) as u8);
        proof {
            assert(first@ =~= touch_first(counters.joy));
        }
        let mut second: Vec<u8> = Vec::new();
        second.push(0x40);
        second.push(0x04);
        second.push(0x4c);
        second.push(0x00);
        second.push(0x00);
        proof {
            assert(second@ =~= touch_second_payload());
        }
        let mut combined_msg: Vec<u8> = Vec::new();
        let mut i: usize = 0;
        while i < first.len()
            invariant
                i <= first@.len(),
                combined_msg@ == first@.take(i as int),
            decreases first@.len() - i,
        {
            combined_msg.push(first[i]);
            proof {
                assert(first@.take(i + 1) =~= first@.take(i as int) + seq![first@[i as int]]);
            }
            i = i + 1;
        }
        proof {
            assert(combined_msg@ =~= first@.take(first@.len() as int) + second@.take(0));
        }
        let mut j: usize = 0;
        while j < second.len()
            invariant
                j <= second@.len(),
                combined_msg@ == first@.take(first@.len() as int) + second@.take(j as int),
            decreases second@.len() - j,
        {
            combined_msg.push(second[j]);
            proof {
                assert(second@.take(j + 1) =~= second@.take(j as int) + seq![second@[j as int]]);
            }
            j = j + 1;
        }
        proof {
            assert(combined_msg@ =~= touch_combined(counters.joy));
        }
        let crc16 = get_crc16_checksum(&combined_msg, CRC16_INIT);
        second.push((crc16 & 0xFF) as u8);
        second.push((crc16 >> 8) as u8);
        proof {
            assert(crc16 >> 8 < 256) by (bit_vector);
            assert((crc16 >> 8) as u8 == ((crc16 >> 8) & 0xFF) as u8) by (bit_vector);
            assert(second@ =~= touch_second(counters.joy));
        }
        let mut result: Vec<Vec<u8>> = Vec::new();
        result.push(first);
        result.push(second);
        Ok(result)
    }
}

impl Default for CommandBuilder {
    /// Same as [`CommandBuilder::new`].
    fn default() -> Self {
        Self::new()
    }
}

/// Clamp a fixed-point axis value into the 11-bit range.
pub(crate) fn clamp_axis(v: i32) -> (r: u16)
    ensures
        r == clamp_11bit(v as int),
{
    if v < 0 {
        0
    } else if v > 2047 {
        2047
    } else {
        v as u16
    }
}

} // verus!
