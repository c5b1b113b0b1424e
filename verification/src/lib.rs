//! Host-side driver for the B15F experiment board.
//!
//! The board is reached over a byte-oriented serial transport and speaks a
//! fixed command protocol: one opcode byte, a fixed-length payload, and a
//! fixed-length response.  This crate verifies the command framing, the
//! handshake that gates every session, and the ordering rules of board
//! discovery.  The operating-system serial handle itself stays outside, behind
//! the [`transport::Transport`] capability.

pub mod board;
pub mod discovery;
pub mod errors;
pub mod protocol;
pub mod read_many;
pub mod transport;

pub use board::B15F;
pub use discovery::{port_priority, sort_ports_by_priority, PortCandidate, PortType};
pub use errors::{B15FCommandError, B15FInitError, TransportError};
pub use protocol::Port;
pub use read_many::ReadManyPorts;
pub use transport::{ScriptTransport, Transport};
