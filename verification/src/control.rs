//! The control session: the stateful orchestrator that owns the sequence
//! counters and the lazy initialization handshake, and turns every
//! operation into the exact ordered burst of CAN frames to put on the wire.
//!
//! The session performs no I/O itself.  Each operation returns the frames
//! of the commands it built, in the order they must be sent, with no other
//! command's frames interleaved; the surrounding application writes them to
//! the bus, one frame per CAN message, and hands inbound frames back for
//! telemetry processing.

use vstd::prelude::*;
use crate::builder::{
    CommandBuilder, GimbalParams, LedColor, MovementParams, AXIS_NEUTRAL, boot_sequence,
    clamp_11bit, gimbal_command, led_command, touch_first, touch_second, twist_command,
};
use crate::can::{
    CommandCounters, MessageSplitter, counter_next, frame_count, frame_slice, increment_counter,
    is_telemetry_frame, split_frames, telemetry_counter,
};

verus! {

/// The byte sequences carried by a list of frames.
pub open spec fn frame_views(frames: Seq<Vec<u8>>) -> Seq<Seq<u8>> {
    frames.map_values(|f: Vec<u8>| f@)
}

proof fn lemma_frame_views_concat(a: Seq<Vec<u8>>, b: Seq<Vec<u8>>)
    ensures
        frame_views(a + b) == frame_views(a) + frame_views(b),
{
    assert(frame_views(a + b) =~= frame_views(a) + frame_views(b));
}

proof fn lemma_frame_views_split(frames: Seq<Vec<u8>>, s: Seq<u8>)
    requires
        frames.len() == frame_count(s.len()),
        forall|i: int| 0 <= i < frames.len() ==> (#[trigger] frames[i])@ == frame_slice(s, i),
    ensures
        frame_views(frames) == split_frames(s),
{
    assert(frame_views(frames) =~= split_frames(s));
}

/// The gimbal yaw coupled to a chassis rotation: the clamped fixed-point
/// rotation rescaled to the gimbal's signed encoding, so that a normalized
/// rotation `v` maps to `-1024 * v`.
pub open spec fn coupled_gimbal_yaw(vz: int) -> i16 {
    (4096 - 4 * clamp_11bit(vz)) as i16
}

/// Executable form of [`coupled_gimbal_yaw`].
fn coupled_yaw(vz: i32) -> (r: i16)
    ensures
        r == coupled_gimbal_yaw(vz as int),
{
    let clamped: i32 = crate::builder::clamp_axis(vz) as i32;
    let wide: i32 = 4096 - 4 * clamped;
    proof {
        assert(-32768 <= wide <= 32767);
    }
    wide as i16
}

/// The frame bursts emitted by one move operation: the boot sequence where
/// the session was not yet initialized, then the twist command, then the
/// coupled gimbal command with pitch zero.
pub open spec fn move_frames(
    was_initialized: bool,
    counters: CommandCounters,
    movement: MovementParams,
) -> Seq<Seq<u8>> {
    (if was_initialized {
        Seq::<Seq<u8>>::empty()
    } else {
        split_frames(boot_sequence())
    }) + split_frames(
        twist_command(
            clamp_11bit(movement.vx as int),
            clamp_11bit(movement.vy as int),
            clamp_11bit(movement.vz as int),
            counters.joy,
        ),
    ) + split_frames(gimbal_command(0, coupled_gimbal_yaw(movement.vz as int), counters.gimbal))
}

/// The first move of a session issues the boot sequence and nothing else
/// before the movement frames; any move after initialization issues only
/// the twist and coupled gimbal frames, and no boot sequence.
pub proof fn lemma_move_boots_exactly_once(
    c1: CommandCounters,
    c2: CommandCounters,
    m1: MovementParams,
    m2: MovementParams,
)
    ensures
        move_frames(false, c1, m1) == split_frames(boot_sequence()) + move_frames(true, c1, m1),
        move_frames(true, c2, m2) == split_frames(
            twist_command(
                clamp_11bit(m2.vx as int),
                clamp_11bit(m2.vy as int),
                clamp_11bit(m2.vz as int),
                c2.joy,
            ),
        ) + split_frames(gimbal_command(0, coupled_gimbal_yaw(m2.vz as int), c2.gimbal)),
{
    assert(move_frames(false, c1, m1) =~= split_frames(boot_sequence()) + move_frames(
        true,
        c1,
        m1,
    ));
    assert(move_frames(true, c2, m2) =~= split_frames(
        twist_command(
            clamp_11bit(m2.vx as int),
            clamp_11bit(m2.vy as int),
            clamp_11bit(m2.vz as int),
            c2.joy,
        ),
    ) + split_frames(gimbal_command(0, coupled_gimbal_yaw(m2.vz as int), c2.gimbal)));
}

/// High-level robot controller: sequence counters, the initialization
/// flag, and the command builder.
pub struct RoboMaster {
    /// The table-backed command builder.
    pub command_builder: CommandBuilder,
    /// The per-family sequence counters.
    pub command_counters: CommandCounters,
    /// Whether the boot handshake has been issued.
    pub is_initialized: bool,
}

impl RoboMaster {
    /// Create a new controller: counters at zero, not initialized.
    pub fn new() -> (r: Self)
        ensures
            r.command_counters.joy == 0,
            r.command_counters.led == 0,
            r.command_counters.gimbal == 0,
            !r.is_initialized,
    {
        RoboMaster {
            command_builder: CommandBuilder::new(),
            command_counters: CommandCounters::default(),
            is_initialized: false,
        }
    }

    /// Produce the boot-sequence frames and mark the session initialized;
    /// a session that is already initialized gets no frames.  The frames
    /// must be sent in order as one burst, followed by a settle delay,
    /// before any movement command.
    pub fn initialize(&mut self) -> (frames: Vec<Vec<u8>>)
        ensures
            final(self).command_counters == old(self).command_counters,
            final(self).is_initialized,
            old(self).is_initialized ==> frames@.len() == 0,
            !old(self).is_initialized ==> frame_views(frames@) == split_frames(boot_sequence()),
    {
        if self.is_initialized {
            return Vec::new();
        }
        let boot_command = match self.command_builder.build_boot_sequence() {
            Ok(c) => c,
            Err(_) => vstd::pervasive::unreached(),
        };
        let can_messages = MessageSplitter::split_command(&boot_command);
        proof {
            lemma_frame_views_split(can_messages@, boot_command@);
        }
        self.is_initialized = true;
        can_messages
    }

    /// Move the robot: initializes lazily if needed, then builds the twist
    /// command and, coupled in the same call, a gimbal command whose yaw
    /// follows the same rotation with pitch fixed at zero.  The joystick
    /// and gimbal counters each advance by exactly one, whatever the
    /// movement values.
    pub fn move_robot(&mut self, movement: MovementParams) -> (frames: Vec<Vec<u8>>)
        ensures
            final(self).is_initialized,
            final(self).command_counters.joy == counter_next(old(self).command_counters.joy),
            final(self).command_counters.gimbal == counter_next(old(self).command_counters.gimbal),
            final(self).command_counters.led == old(self).command_counters.led,
            frame_views(frames@) == move_frames(
                old(self).is_initialized,
                old(self).command_counters,
                movement,
            ),
    {
        let ghost was_initialized = self.is_initialized;
        let mut frames = self.initialize();
        proof {
            if was_initialized {
                assert(frames@ =~= Seq::<Vec<u8>>::empty());
                assert(frame_views(frames@) =~= Seq::<Seq<u8>>::empty());
            }
        }
        let twist_cmd = match self.command_builder.build_twist_command(
            movement,
            &self.command_counters,
        ) {
            Ok(c) => c,
            Err(_) => vstd::pervasive::unreached(),
        };
        let mut twist_messages = MessageSplitter::split_command(&twist_cmd);
        proof {
            lemma_frame_views_split(twist_messages@, twist_cmd@);
        }
        let gimbal_params = GimbalParams { ry: 0, rz: coupled_yaw(movement.vz) };
        let gimbal_cmd = match self.command_builder.build_gimbal_command(
            gimbal_params,
            &self.command_counters,
        ) {
            Ok(c) => c,
            Err(_) => vstd::pervasive::unreached(),
        };
        let mut gimbal_messages = MessageSplitter::split_command(&gimbal_cmd);
        proof {
            lemma_frame_views_split(gimbal_messages@, gimbal_cmd@);
        }
        let ghost boot_part = frames@;
        let ghost twist_part = twist_messages@;
        let ghost gimbal_part = gimbal_messages@;
        frames.append(&mut twist_messages);
        frames.append(&mut gimbal_messages);
        proof {
            lemma_frame_views_concat(boot_part, twist_part);
            lemma_frame_views_concat(boot_part + twist_part, gimbal_part);
        }
        self.command_counters.joy = increment_counter(self.command_counters.joy);
        self.command_counters.gimbal = increment_counter(self.command_counters.gimbal);
        frames
    }

    /// Stop the robot: a move with every axis at rest.
    pub fn stop(&mut self) -> (frames: Vec<Vec<u8>>)
        ensures
            final(self).is_initialized,
            final(self).command_counters.joy == counter_next(old(self).command_counters.joy),
            final(self).command_counters.gimbal == counter_next(old(self).command_counters.gimbal),
            final(self).command_counters.led == old(self).command_counters.led,
            frame_views(frames@) == move_frames(
                old(self).is_initialized,
                old(self).command_counters,
                MovementParams { vx: AXIS_NEUTRAL, vy: AXIS_NEUTRAL, vz: AXIS_NEUTRAL },
            ),
    {
        let stop_movement = MovementParams {
            vx: AXIS_NEUTRAL,
            vy: AXIS_NEUTRAL,
            vz: AXIS_NEUTRAL,
        };
        self.move_robot(stop_movement)
    }

    /// Build the LED color command frames and advance the LED counter by
    /// one.  Does not require prior initialization.
    pub fn control_led(&mut self, color: LedColor) -> (frames: Vec<Vec<u8>>)
        ensures
            final(self).is_initialized == old(self).is_initialized,
            final(self).command_counters.led == counter_next(old(self).command_counters.led),
            final(self).command_counters.joy == old(self).command_counters.joy,
            final(self).command_counters.gimbal == old(self).command_counters.gimbal,
            frame_views(frames@) == split_frames(
                led_command(color, old(self).command_counters.led),
            ),
    {
        let led_cmd = match self.command_builder.build_led_command(color, &self.command_counters) {
            Ok(c) => c,
            Err(_) => vstd::pervasive::unreached(),
        };
        let led_messages = MessageSplitter::split_command(&led_cmd);
        proof {
            lemma_frame_views_split(led_messages@, led_cmd@);
        }
        self.command_counters.led = increment_counter(self.command_counters.led);
        led_messages
    }

    /// Build the two-frame touch command and advance the joystick counter
    /// by one.  The two frames are sent as they are, in order.
    pub fn send_touch(&mut self) -> (frames: Vec<Vec<u8>>)
        ensures
            final(self).is_initialized == old(self).is_initialized,
            final(self).command_counters.joy == counter_next(old(self).command_counters.joy),
            final(self).command_counters.led == old(self).command_counters.led,
            final(self).command_counters.gimbal == old(self).command_counters.gimbal,
            frame_views(frames@) == seq![
                touch_first(old(self).command_counters.joy),
                touch_second(old(self).command_counters.joy),
            ],
    {
        let touch_messages = match self.command_builder.build_touch_command(
            &self.command_counters,
        ) {
            Ok(m) => m,
            Err(_) => vstd::pervasive::unreached(),
        };
        proof {
            assert(frame_views(touch_messages@) =~= seq![
                touch_first(self.command_counters.joy),
                touch_second(self.command_counters.joy),
            ]);
        }
        self.command_counters.joy = increment_counter(self.command_counters.joy);
        touch_messages
    }

    /// Feed one inbound frame to the session; the one recognized telemetry
    /// payload resynchronizes the joystick counter, everything else is
    /// ignored.
    pub fn process_received_frame(&mut self, frame_id: u16, data: &Vec<u8>)
        ensures
            final(self).is_initialized == old(self).is_initialized,
            final(self).command_counters.led == old(self).command_counters.led,
            final(self).command_counters.gimbal == old(self).command_counters.gimbal,
            is_telemetry_frame(frame_id, data@) ==> final(self).command_counters.joy
                == counter_next(telemetry_counter(data@)),
            !is_telemetry_frame(frame_id, data@) ==> final(self).command_counters.joy == old(
                self,
            ).command_counters.joy,
    {
        self.command_counters.process_telemetry_frame(frame_id, data);
    }

    /// Get the current command counters.
    pub fn get_counters(&self) -> (c: &CommandCounters)
        ensures
            *c == self.command_counters,
    {
        &self.command_counters
    }

    /// Shut the session down.  Taking the session by value makes the
    /// closed state terminal: no further operation can be called.
    pub fn shutdown(self) {
    }
}

/// LED command builder for an ergonomic API.
#[derive(Debug, Clone, Copy, PartialEq, Eq, Structural)]
pub struct LedCommand {
    /// The color this command will set.
    pub color: LedColor,
}

impl Default for LedCommand {
    /// Off: all components zero.
    fn default() -> (c: Self)
        ensures
            c.color == (LedColor { red: 0, green: 0, blue: 0 }),
    {
        LedCommand { color: LedColor { red: 0, green: 0, blue: 0 } }
    }
}

impl LedCommand {
    /// A new LED command, off.
    pub fn new() -> (c: Self)
        ensures
            c.color == (LedColor { red: 0, green: 0, blue: 0 }),
    {
        Self::default()
    }

    /// An arbitrary RGB color.
    pub fn rgb(red: u8, green: u8, blue: u8) -> (c: Self)
        ensures
            c.color == (LedColor { red: red, green: green, blue: blue }),
    {
        LedCommand { color: LedColor { red, green, blue } }
    }

    /// Pure red: (255, 0, 0).
    pub fn red() -> (c: Self)
        ensures
            c.color == (LedColor { red: 255, green: 0, blue: 0 }),
    {
        Self::rgb(255, 0, 0)
    }

    /// Pure green: (0, 255, 0).
    pub fn green() -> (c: Self)
        ensures
            c.color == (LedColor { red: 0, green: 255, blue: 0 }),
    {
        Self::rgb(0, 255, 0)
    }

    /// Pure blue: (0, 0, 255).
    pub fn blue() -> (c: Self)
        ensures
            c.color == (LedColor { red: 0, green: 0, blue: 255 }),
    {
        Self::rgb(0, 0, 255)
    }

    /// White: (255, 255, 255).
    pub fn white() -> (c: Self)
        ensures
            c.color == (LedColor { red: 255, green: 255, blue: 255 }),
    {
        Self::rgb(255, 255, 255)
    }

    /// Off: (0, 0, 0).
    pub fn off() -> (c: Self)
        ensures
            c.color == (LedColor { red: 0, green: 0, blue: 0 }),
    {
        Self::rgb(0, 0, 0)
    }

    /// The LED color of this command.
    pub fn color(&self) -> (c: LedColor)
        ensures
            c == self.color,
    {
        self.color
    }
}

} // verus!
