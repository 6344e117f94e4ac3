//! Bit-exact command encoding and a verified control session for a small
//! mobile robot driven over a CAN bus.
//!
//! The crate covers the protocol engine: layered CRC8/CRC16 checksums, the
//! per-command byte templates with counter and parameter substitution,
//! splitting of finished commands into CAN-sized frames, and the stateful
//! session that owns the per-subsystem sequence counters and the
//! initialization handshake.  Opening the bus, sending and receiving frames,
//! and mapping operator input to fixed-point parameters are left to the
//! surrounding application.

use vstd::prelude::*;

pub mod builder;
pub mod can;
pub mod command;
pub mod control;
pub mod crc16;
pub mod crc8;
pub mod error;
pub mod joystick;

pub use crate::builder::{CommandBuilder, GimbalParams, LedColor, MovementParams};
pub use crate::can::{CommandCounters, MessageSplitter};
pub use crate::control::{LedCommand, RoboMaster};
pub use crate::error::RoboMasterError;

verus! {

/// Default CAN interface name.
pub const DEFAULT_CAN_INTERFACE: &'static str = "can0";

/// Control loop frequency in Hz.
pub const CONTROL_FREQUENCY: u32 = 100;

/// CAN message timeout in milliseconds.
pub const CAN_TIMEOUT_MS: u64 = 200;

} // verus!
