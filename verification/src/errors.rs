//! The error taxonomy of the driver.
//!
//! Three kinds are kept apart: the transport failed (I/O), the board answered
//! a status-bearing command with a failure byte, and the caller handed an
//! operation a value outside its declared domain.  Session construction adds
//! two more: no device found, and a device that answered but is not a board.

use vstd::prelude::*;

verus! {

/// What the underlying channel reported when an open, read, write or flush
/// failed, reduced to its message text.
#[derive(Debug)]
pub struct TransportError {
    pub message: String,
}

/// Failure of one command round trip.
#[derive(Debug)]
pub enum B15FCommandError {
    /// The board answered a status-bearing command with a byte other than
    /// `MSG_OK`.  The protocol carries no further detail.
    B15FError,
    /// The transport failed mid-command (write, flush, read, or timeout).
    IoError(TransportError),
    /// The caller supplied an out-of-domain port, channel or value.  The
    /// command was rejected before any byte was sent; this is interface
    /// misuse, not a device condition.
    ContractViolation,
}

/// Failure while constructing a session.
#[derive(Debug)]
pub enum B15FInitError {
    /// The handshake round trip itself failed.
    CommandError(B15FCommandError),
    /// Discovery exhausted every candidate endpoint without a working board.
    DeviceNotFound,
    /// The endpoint completed the handshake at the transport level but did
    /// not answer like a board: a failing status byte or a wrong echo byte.
    DeviceNotSupported,
    /// The endpoint could not be opened as a serial transport.
    SerialPortError(TransportError),
}

} // verus!
