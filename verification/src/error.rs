//! Error types for the protocol engine and its transport.
//!
//! Transport failures carry the underlying cause as plain text; the
//! surrounding application converts its I/O errors into these values at the
//! library boundary.

use vstd::prelude::*;

verus! {

/// CAN interface specific errors.
#[derive(Debug)]
pub enum CanError {
    /// Failed to open the CAN interface.
    OpenFailed { interface: String, message: String },
    /// Failed to send a CAN message.
    SendFailed(String),
    /// Failed to receive a CAN message.
    ReceiveFailed(String),
    /// Payload longer than a single CAN frame allows.
    InvalidDataLength { length: usize, max_length: usize },
    /// Failed to create a CAN frame.
    FrameCreation(String),
    /// Invalid CAN message format.
    InvalidMessage { reason: String },
    /// CAN interface not available.
    InterfaceNotAvailable { interface: String },
}

/// Protocol parsing and generation errors.
#[derive(Debug)]
pub enum ProtocolError {
    /// CRC checksum mismatch.
    CrcMismatch { expected: u16, actual: u16 },
    /// Invalid command identifier.
    InvalidCommandId { command_id: u8 },
    /// Message shorter than the protocol requires.
    MessageTooShort { expected: usize, actual: usize },
    /// Message longer than the protocol allows.
    MessageTooLong { max: usize, actual: usize },
    /// Invalid message header.
    InvalidHeader { reason: String },
    /// Unsupported command.
    UnsupportedCommand { command: String },
    /// A template whose declared length cannot hold the checksum trailer.
    InvalidCommandLength { command_id: usize },
    /// No template exists for the identifier.
    CommandNotFound { command_id: usize },
}

/// Joystick input errors.
#[derive(Debug)]
pub enum JoystickError {
    /// Joystick not found.
    NotFound { id: u32 },
    /// Failed to read joystick input.
    ReadFailed(String),
    /// Invalid joystick configuration.
    InvalidConfig { reason: String },
    /// Joystick disconnected.
    Disconnected,
}

/// Main error type for robot operations.
#[derive(Debug)]
pub enum RoboMasterError {
    /// CAN interface errors.
    CanInterface(CanError),
    /// Protocol-related errors.
    Protocol(ProtocolError),
    /// Joystick input errors.
    Joystick(JoystickError),
    /// Operation timed out.
    Timeout { timeout_ms: u64 },
    /// Robot not initialized.
    NotInitialized,
    /// Robot already initialized.
    AlreadyInitialized,
    /// Invalid parameter.
    InvalidParameter { parameter: String, value: String },
    /// Generic error with context.
    Generic { message: String },
}

/// Whether retrying after a delay can succeed: transient transport faults
/// are recoverable, configuration and protocol defects are not.
pub open spec fn recoverable(e: &RoboMasterError) -> bool {
    match e {
        RoboMasterError::CanInterface(CanError::SendFailed(_)) => true,
        RoboMasterError::CanInterface(CanError::ReceiveFailed(_)) => true,
        RoboMasterError::CanInterface(CanError::InvalidMessage { .. }) => true,
        RoboMasterError::CanInterface(_) => false,
        RoboMasterError::Protocol(_) => false,
        RoboMasterError::Joystick(JoystickError::ReadFailed(_)) => true,
        RoboMasterError::Joystick(_) => false,
        RoboMasterError::Timeout { .. } => true,
        RoboMasterError::NotInitialized => false,
        RoboMasterError::AlreadyInitialized => false,
        RoboMasterError::InvalidParameter { .. } => false,
        RoboMasterError::Generic { .. } => false,
    }
}

/// The logging category of an error.
pub open spec fn category_of(e: &RoboMasterError) -> Seq<char> {
    match e {
        RoboMasterError::CanInterface(_) => "can"@,
        RoboMasterError::Protocol(_) => "protocol"@,
        RoboMasterError::Joystick(_) => "joystick"@,
        RoboMasterError::Timeout { .. } => "timeout"@,
        RoboMasterError::NotInitialized => "state"@,
        RoboMasterError::AlreadyInitialized => "state"@,
        RoboMasterError::InvalidParameter { .. } => "parameter"@,
        RoboMasterError::Generic { .. } => "generic"@,
    }
}

impl RoboMasterError {
    /// Create a generic error with a message.
    pub fn generic(message: String) -> (e: Self)
        ensures
            e matches RoboMasterError::Generic { message: m } && m@ == message@,
    {
        RoboMasterError::Generic { message }
    }

    /// Check whether this error is recoverable by delaying and retrying.
    pub fn is_recoverable(&self) -> (r: bool)
        ensures
            r == recoverable(self),
    {
        match self {
            Self::CanInterface(CanError::SendFailed(_)) => true,
            Self::CanInterface(CanError::ReceiveFailed(_)) => true,
            Self::CanInterface(CanError::InvalidMessage { .. }) => true,
            Self::CanInterface(_) => false,
            Self::Protocol(_) => false,
            Self::Joystick(JoystickError::ReadFailed(_)) => true,
            Self::Joystick(_) => false,
            Self::Timeout { .. } => true,
            Self::NotInitialized => false,
            Self::AlreadyInitialized => false,
            Self::InvalidParameter { .. } => false,
            Self::Generic { .. } => false,
        }
    }

    /// Get the error category for logging.
    pub fn category(&self) -> (c: &'static str)
        ensures
            c@ == category_of(self),
    {
        match self {
            Self::CanInterface(_) => "can",
            Self::Protocol(_) => "protocol",
            Self::Joystick(_) => "joystick",
            Self::Timeout { .. } => "timeout",
            Self::NotInitialized => "state",
            Self::AlreadyInitialized => "state",
            Self::InvalidParameter { .. } => "parameter",
            Self::Generic { .. } => "generic",
        }
    }
}

} // verus!
