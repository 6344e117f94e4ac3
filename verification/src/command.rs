//! The read-only table of command templates, and the byte roles that drive
//! substitution.
//!
//! A template is a byte skeleton of a command.  Byte 0 is the frame header
//! 0x55, byte 1 the total command length, byte 2 a fixed type byte, byte 3
//! the marker position where the running CRC8 of the emitted header is
//! written, bytes 4 and 5 the command set and identifier, and bytes 6 and 7
//! hold the little-endian sequence counter where a command family uses one.
//! The final two bytes of every template are reserved for the trailing
//! CRC16 and are never part of the substitution loop.

use vstd::prelude::*;

verus! {

/// Identifier of the chassis movement (twist) command.
pub const TWIST: usize = 0;

/// Identifier of the gimbal orientation command.
pub const GIMBAL: usize = 1;

/// Identifier of the LED color command.
pub const LED_COLOR: usize = 2;

/// Identifier of the LED on command.
pub const LED_ON: usize = 3;

/// First command of the boot-sequence range.
pub const BOOT_FIRST: usize = 26;

/// Last command of the boot-sequence range, inclusive.
pub const BOOT_LAST: usize = 34;

/// Number of templates in the table.
pub const COMMAND_COUNT: usize = 38;

/// Total length of the template of command `id`, trailer included.
pub open spec fn template_len(id: int) -> nat {
    if id == 0 {
        27
    } else if id == 1 || id == 2 {
        19
    } else {
        15
    }
}

/// The byte stored at offset `i` of the template of command `id`.  The
/// stored byte at the CRC8 marker offset is a placeholder; building a
/// command overwrites it.
pub open spec fn template_byte(id: int, i: int) -> u8 {
    if i == 0 {
        0x55
    } else if i == 1 {
        if id == 0 {
            0x1b
        } else if id == 1 || id == 2 {
            0x13
        } else {
            0x0f
        }
    } else if i == 2 {
        0x04
    } else if i == 4 {
        0x09
    } else if i == 5 {
        0x04
    } else if id == 0 && i == 8 {
        0x40
    } else if id == 0 && i == 9 {
        0x04
    } else if id == 0 && i == 10 {
        0x4c
    } else {
        0x00
    }
}

/// The whole template of command `id`.
pub open spec fn template_spec(id: int) -> Seq<u8> {
    Seq::new(template_len(id), |i: int| template_byte(id, i))
}

/// The three header bytes that precede the CRC8 marker; the marker byte is
/// the checksum of exactly these.
pub open spec fn template_header(id: int) -> Seq<u8> {
    seq![template_byte(id, 0), template_byte(id, 1), template_byte(id, 2)]
}

/// Whether offset `i` is the CRC8 marker position.
pub open spec fn crc8_position(i: int) -> bool {
    i == 3
}

/// Whether offset `i` belongs to the little-endian counter field.
pub open spec fn counter_position(i: int) -> bool {
    i == 6 || i == 7
}

/// Check whether `index` is the CRC8 marker position of a template.
pub fn is_crc8_position(_template: &Vec<u8>, index: usize) -> (r: bool)
    ensures
        r == crc8_position(index as int),
{
    index == 3
}

/// Check whether `index` belongs to the counter field of a template.
pub fn is_counter_position(_template: &Vec<u8>, index: usize) -> (r: bool)
    ensures
        r == counter_position(index as int),
{
    index == 6 || index == 7
}

/// The declared total length of a template, or `None` for one too short to
/// carry its two-byte checksum trailer.
pub fn get_command_length(template: &Vec<u8>) -> (r: Option<usize>)
    ensures
        r == if template@.len() >= 2 {
            Some(template@.len() as usize)
        } else {
            None::<usize>
        },
{
    if template.len() >= 2 {
        Some(template.len())
    } else {
        None
    }
}

/// Total length of the template of command `id`, executable form.
fn template_length(id: usize) -> (n: usize)
    requires
        id < COMMAND_COUNT,
    ensures
        n == template_len(id as int),
{
    if id == 0 {
        27
    } else if id == 1 || id == 2 {
        19
    } else {
        15
    }
}

/// The byte stored at offset `i` of the template of command `id`,
/// executable form.
fn template_byte_at(id: usize, i: usize) -> (b: u8)
    requires
        id < COMMAND_COUNT,
    ensures
        b == template_byte(id as int, i as int),
{
    if i == 0 {
        0x55
    } else if i == 1 {
        if id == 0 {
            0x1b
        } else if id == 1 || id == 2 {
            0x13
        } else {
            0x0f
        }
    } else if i == 2 {
        0x04
    } else if i == 4 {
        0x09
    } else if i == 5 {
        0x04
    } else if id == 0 && i == 8 {
        0x40
    } else if id == 0 && i == 9 {
        0x04
    } else if id == 0 && i == 10 {
        0x4c
    } else {
        0x00
    }
}

/// Build the template of command `id`.
fn make_template(id: usize) -> (t: Vec<u8>)
    requires
        id < COMMAND_COUNT,
    ensures
        t@ == template_spec(id as int),
{
    let len = template_length(id);
    let mut t: Vec<u8> = Vec::new();
    let mut i: usize = 0;
    while i < len
        invariant
            id < COMMAND_COUNT,
            len == template_len(id as int),
            i <= len,
            t@ == template_spec(id as int).take(i as int),
        decreases len - i,
    {
        t.push(template_byte_at(id, i));
        proof {
            assert(template_spec(id as int).take(i + 1) =~= template_spec(id as int).take(i as int)
                + seq![template_byte(id as int, i as int)]);
        }
        i = i + 1;
    }
    proof {
        assert(template_spec(id as int).take(template_len(id as int) as int) =~= template_spec(
            id as int,
        ));
    }
    t
}

/// Build the whole command table, one template per identifier.
pub fn get_command_table() -> (table: Vec<Vec<u8>>)
    ensures
        table@.len() == COMMAND_COUNT,
        forall|id: int|
            0 <= id < COMMAND_COUNT ==> (#[trigger] table@[id])@ == template_spec(id),
{
    let mut table: Vec<Vec<u8>> = Vec::new();
    let mut id: usize = 0;
    while id < COMMAND_COUNT
        invariant
            id <= COMMAND_COUNT,
            table@.len() == id,
            forall|k: int| 0 <= k < id ==> (#[trigger] table@[k])@ == template_spec(k),
        decreases COMMAND_COUNT - id,
    {
        table.push(make_template(id));
        id = id + 1;
    }
    table
}

} // verus!
