//! Frame-level pieces of the transport: the fixed arbitration identifier,
//! the per-subsystem sequence counters, the telemetry decoder that can
//! resynchronize the joystick counter, and the splitter that chunks a
//! finished command buffer into CAN-sized frames.

use vstd::prelude::*;

verus! {

/// CAN arbitration identifier used for robot communication.
pub const ROBOMASTER_CAN_ID: u16 = 0x201;

/// Maximum CAN frame data length.
pub const CAN_MAX_DATA_LEN: usize = 8;

/// Successor of a sequence counter: increments by one and wraps from
/// 65535 back to 0.
pub open spec fn counter_next(c: u16) -> u16 {
    if c == 0xFFFF {
        0
    } else {
        (c + 1) as u16
    }
}

/// The counter reached from `c` after `n` increments.
pub open spec fn counter_after(c: u16, n: nat) -> u16
    decreases n,
{
    if n == 0 {
        c
    } else {
        counter_next(counter_after(c, (n - 1) as nat))
    }
}

/// Increment a sequence counter, wrapping from 65535 back to 0.
pub fn increment_counter(c: u16) -> (r: u16)
    ensures
        r == counter_next(c),
{
    if c == 0xFFFF {
        0
    } else {
        c + 1
    }
}

/// After any `n` increments the counter is the start value shifted by `n`
/// modulo 65536; in particular 65536 increments return every counter to
/// itself, without any overflow failure.
pub proof fn lemma_counter_wraparound(c: u16, n: nat)
    ensures
        counter_after(c, n) == (c + n) % 0x10000,
        counter_after(c, 0x10000) == c,
{
    lemma_counter_shift(c, n);
    lemma_counter_shift(c, 0x10000);
    assert((c + 0x10000) % 0x10000 == c);
}

proof fn lemma_counter_shift(c: u16, n: nat)
    ensures
        counter_after(c, n) == (c + n) % 0x10000,
    decreases n,
{
    if n > 0 {
        lemma_counter_shift(c, (n - 1) as nat);
    }
}

/// Command counters for the three independent command families.
#[derive(Debug, Clone, PartialEq, Eq, Structural)]
pub struct CommandCounters {
    pub joy: u16,
    pub led: u16,
    pub gimbal: u16,
}

impl Default for CommandCounters {
    /// Fresh counters all start at zero.
    fn default() -> (c: Self)
        ensures
            c.joy == 0 && c.led == 0 && c.gimbal == 0,
    {
        Self { joy: 0, led: 0, gimbal: 0 }
    }
}

/// The six-byte marker that opens the one recognized telemetry payload.
pub open spec fn telemetry_marker() -> Seq<u8> {
    seq![0x55u8, 0x1b, 0x04, 0x75, 0x09, 0xc3]
}

/// Whether an inbound frame is the telemetry payload of interest: right
/// arbitration identifier, at least eight data bytes, and the fixed marker
/// prefix.
pub open spec fn is_telemetry_frame(frame_id: u16, data: Seq<u8>) -> bool {
    frame_id == ROBOMASTER_CAN_ID && data.len() >= 8 && data.take(6) == telemetry_marker()
}

/// The counter carried by a telemetry payload, decoded little-endian from
/// bytes six and seven.
pub open spec fn telemetry_counter(data: Seq<u8>) -> u16
    recommends
        data.len() >= 8,
{
    (data[6] + data[7] * 0x100) as u16
}

impl CommandCounters {
    /// Inspect one inbound frame; if it is the telemetry payload of
    /// interest, resynchronize the joystick counter to the decoded value
    /// plus one.  Every other frame is ignored.
    pub fn process_telemetry_frame(&mut self, frame_id: u16, data: &Vec<u8>)
        ensures
            final(self).led == old(self).led,
            final(self).gimbal == old(self).gimbal,
            is_telemetry_frame(frame_id, data@) ==> final(self).joy == counter_next(
                telemetry_counter(data@),
            ),
            !is_telemetry_frame(frame_id, data@) ==> final(self).joy == old(self).joy,
    {
        if frame_id == ROBOMASTER_CAN_ID && data.len() >= 8 {
            let marker_matches = data[0] == 0x55 && data[1] == 0x1b && data[2] == 0x04 && data[3]
                == 0x75 && data[4] == 0x09 && data[5] == 0xc3;
            if marker_matches {
                proof {
                    assert(data@.take(6) =~= telemetry_marker());
                }
                let counter: u16 = (data[6] as u16) | ((data[7] as u16) << 8);
                proof {
                    let b6 = data@[6];
                    let b7 = data@[7];
                    assert((b6 as u16) | ((b7 as u16) << 8) == (b6 + b7 * 0x100) as u16)
                        by (bit_vector);
                }
                self.joy = increment_counter(counter);
            } else {
                proof {
                    if data@.take(6) == telemetry_marker() {
                        assert(data@[0] == 0x55 && data@[1] == 0x1b && data@[2] == 0x04 && data@[3]
                            == 0x75 && data@[4] == 0x09 && data@[5] == 0xc3) by {
                            assert(forall|i: int|
                                0 <= i < 6 ==> data@[i] == #[trigger] data@.take(6)[i]);
                        }
                    }
                }
            }
        }
    }
}

/// Number of CAN frames needed for `n` bytes: the ceiling of `n / 8`.
pub open spec fn frame_count(n: nat) -> nat {
    n / 8 + if n % 8 == 0 {
        0nat
    } else {
        1nat
    }
}

/// The frame count is the ceiling of `n / 8`.
pub proof fn lemma_frame_count_is_ceiling(n: nat)
    ensures
        frame_count(n) == (n + 7) / 8,
{
    assert(frame_count(n) == (n + 7) / 8) by (nonlinear_arith);
}

/// The bytes of the `i`-th frame of a split command.
pub open spec fn frame_slice(s: Seq<u8>, i: int) -> Seq<u8> {
    s.subrange(
        8 * i,
        if 8 * i + 8 <= s.len() {
            8 * i + 8
        } else {
            s.len() as int
        },
    )
}

/// A command buffer split into its ordered CAN frames.
pub open spec fn split_frames(s: Seq<u8>) -> Seq<Seq<u8>> {
    Seq::new(frame_count(s.len()), |i: int| frame_slice(s, i))
}

/// Message splitter for converting commands to CAN frames.
pub struct MessageSplitter;

impl MessageSplitter {
    /// Split a command into at-most-8-byte CAN frames, in original byte
    /// order, the last frame possibly shorter.  An empty command yields no
    /// frames.
    pub fn split_command(command: &Vec<u8>) -> (frames: Vec<Vec<u8>>)
        ensures
            frames@.len() == frame_count(command@.len()),
            forall|i: int| 0 <= i < frames@.len() ==> frames@[i]@ == frame_slice(command@, i),
            forall|i: int| 0 <= i < frames@.len() ==> 1 <= (#[trigger] frames@[i])@.len() <= 8,
    {
        let n = command.len();
        let chunks = n / 8 + if n % 8 == 0 {
            0
        } else {
            1
        };
        let mut frames: Vec<Vec<u8>> = Vec::new();
        let mut i: usize = 0;
        while i < chunks
            invariant
                n == command@.len(),
                chunks == frame_count(n as nat),
                0 <= i <= chunks,
                frames@.len() == i,
                forall|j: int| 0 <= j < i ==> frames@[j]@ == frame_slice(command@, j),
            decreases chunks - i,
        {
            proof {
                assert(8 * i < n);
            }
            let start = i * 8;
            let end = if n - start > 8 {
                start + 8
            } else {
                n
            };
            let mut frame: Vec<u8> = Vec::new();
            let mut k = start;
            while k < end
                invariant
                    start <= k <= end <= n,
                    n == command@.len(),
                    frame@ == command@.subrange(start as int, k as int),
                decreases end - k,
            {
                frame.push(command[k]);
                proof {
                    assert(command@.subrange(start as int, k + 1) =~= command@.subrange(
                        start as int,
                        k as int,
                    ) + seq![command@[k as int]]);
                }
                k = k + 1;
            }
            proof {
                assert(frame@ == frame_slice(command@, i as int));
            }
            frames.push(frame);
            i = i + 1;
        }
        proof {
            assert forall|j: int| 0 <= j < frames@.len() implies 1 <= (#[trigger] frames@[j])@.len()
                <= 8 by {
                assert(8 * j < command@.len());
                assert(frames@[j]@ == frame_slice(command@, j));
            }
        }
        frames
    }
}

} // verus!
