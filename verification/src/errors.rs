//! Error type shared by every part of the library.
use vstd::prelude::*;

verus! {

/// Main error type for CANopen operations.
#[derive(Debug)]
pub enum CANopenError {
    /// CAN hardware error, with a description.
    Hardware(String),
    /// SDO transfer aborted with the given abort code.
    Sdo { code: u32 },
    /// An operation did not complete in time.
    Timeout,
    /// A CAN identifier or frame does not have the expected shape.
    InvalidMessage,
    /// A node did not answer.
    NodeNotFound { node_id: u8 },
    /// The hardware is not connected.
    Connection,
    /// A queue is full.
    QueueFull,
    /// An internal channel was closed.
    ChannelClosed,
    /// Error reported by the PEAK CAN driver.
    PeakCan(String),
    /// A value could not be decoded or does not match its data type.
    InvalidData(String),
    /// A payload had an unexpected length.
    InvalidLength(usize),
    /// A protocol manager has not been created yet.
    NotInitialized,
}

/// Convenience result type of the library.
pub type Result<T> = std::result::Result<T, CANopenError>;

} // verus!
