//! A session with one board: the handshake that gates it and the typed
//! command surface built on the wire protocol.
//!
//! Every operation is one synchronous round trip: write the full request,
//! flush, then read the fixed-size response.  The contracts state, over the
//! transport's model, exactly which bytes each operation writes and how it
//! decodes what it reads.

use vstd::prelude::*;

use crate::errors::{B15FCommandError, B15FInitError};
use crate::protocol::{
    analog_read_request, analog_write_request, digital_read_request, digital_write_request, le16,
    pwm_frequency_request, pwm_value_request, reverse_bits, spec_reverse_bits, test_request,
    u16_from_le_pair, Port, ANALOG_READ_MAX_CHANNEL, ANALOG_WRITE_MAX, MSG_OK, RQ_ANALOG_READ,
    RQ_ANALOG_WRITE_0, RQ_ANALOG_WRITE_1, RQ_DIGITAL_READ_0, RQ_DIGITAL_READ_1, RQ_DIGITAL_WRITE_0,
    RQ_DIGITAL_WRITE_1, RQ_PWM_SET_FREQ, RQ_PWM_SET_VALUE, RQ_TEST,
};
use crate::read_many::{
    analog_request_block, analog_response_offset, analog_selected, digital_request_block,
    digital_response_offset, digital_selected, lemma_n_analog_nonneg, lemma_n_digital_unfold,
    n_analog_selected, n_digital_selected,
    read_many_request, read_many_response_len, ReadManyPorts,
};
use crate::transport::Transport;

verus! {

/// A session with one board, owning its transport for the session's whole
/// lifetime.  A session is only handed out after a successful handshake:
/// [`B15F::from`] is the one public constructor.
pub struct B15F<P: Transport> {
    port: P,
}

/// Relies on `rand::random`: one uniformly drawn byte.  Nothing is promised
/// of the value; every caller must work for any byte that comes back.
#[verifier::external_body]
fn random_u8() -> (r: u8) {
    rand::random::<u8>()
}

impl<P: Transport> B15F<P> {
    /// The owned transport, for specification purposes.
    pub closed spec fn port_spec(&self) -> P {
        self.port
    }

    /// A borrow of the owned transport, so that a caller holding an
    /// inspectable transport (such as a scripted one) can look at it.
    pub fn port(&self) -> (r: &P)
        ensures
            *r == self.port_spec(),
    {
        &self.port
    }

    /// Construct a session over an already-open transport by running one
    /// handshake with the given challenge byte.
    ///
    /// The challenge is a caller-supplied stand-in for the random byte that
    /// [`B15F::from`] draws; taking it as an argument makes the round trip
    /// deterministic and lets the contract speak about the answer exactly:
    /// the handshake passes if and only if the board answers `MSG_OK`
    /// followed by the challenge itself.  A round trip that completes but
    /// does not pass — failing status byte or wrong echo — is
    /// `DeviceNotSupported`; only a transport failure surfaces as
    /// `CommandError`.
    pub fn from_with_challenge(port: P, challenge: u8) -> (r: Result<B15F<P>, B15FInitError>)
        ensures
            r matches Ok(board) ==> {
                &&& port.incoming().len() >= 2
                &&& port.incoming()[0] == MSG_OK
                &&& port.incoming()[1] == challenge
                &&& board.port_spec().written() == port.written() + test_request(challenge)
                &&& board.port_spec().incoming() == port.incoming().skip(2)
            },
            r == Err::<B15F<P>, B15FInitError>(B15FInitError::DeviceNotSupported) ==> {
                &&& port.incoming().len() >= 2
                &&& (port.incoming()[0] != MSG_OK || port.incoming()[1] != challenge)
            },
            r matches Err(B15FInitError::CommandError(e)) ==> e matches B15FCommandError::IoError(
                _,
            ),
            !(r matches Err(B15FInitError::DeviceNotFound)),
            !(r matches Err(B15FInitError::SerialPortError(_))),
    {
        let mut board = B15F { port };
        match board.test_with_challenge(challenge) {
            Ok(true) => Ok(board),
            Ok(false) => Err(B15FInitError::DeviceNotSupported),
            Err(B15FCommandError::B15FError) => Err(B15FInitError::DeviceNotSupported),
            Err(e) => Err(B15FInitError::CommandError(e)),
        }
    }

    /// Construct a session over an already-open transport by running one
    /// handshake with a random challenge byte.
    ///
    /// A transport-level failure is propagated; a round trip that completes
    /// but does not pass — failing status byte or mismatched echo — is
    /// `DeviceNotSupported`: the endpoint answered, but not like a board.
    pub fn from(port: P) -> (r: Result<B15F<P>, B15FInitError>)
        ensures
            r matches Ok(board) ==> {
                &&& port.incoming().len() >= 2
                &&& port.incoming()[0] == MSG_OK
                &&& board.port_spec().written().len() == port.written().len() + 2
                &&& board.port_spec().written() == port.written() + test_request(
                    board.port_spec().written().last(),
                )
                &&& port.incoming()[1] == board.port_spec().written().last()
                &&& board.port_spec().incoming() == port.incoming().skip(2)
            },
            r == Err::<B15F<P>, B15FInitError>(B15FInitError::DeviceNotSupported) ==> {
                &&& port.incoming().len() >= 2
            },
            r matches Err(B15FInitError::CommandError(e)) ==> e matches B15FCommandError::IoError(
                _,
            ),
            !(r matches Err(B15FInitError::DeviceNotFound)),
            !(r matches Err(B15FInitError::SerialPortError(_))),
    {
        let challenge = random_u8();
        Self::from_with_challenge(port, challenge)
    }

    /// One handshake round trip with a caller-chosen challenge byte: send
    /// the test opcode and the challenge, read two bytes back.  The first
    /// must be `MSG_OK`, else the board reported an error; the result says
    /// whether the second equals the challenge.
    pub fn test_with_challenge(&mut self, challenge: u8) -> (r: Result<bool, B15FCommandError>)
        ensures
            r matches Ok(pass) ==> {
                &&& old(self).port_spec().incoming().len() >= 2
                &&& old(self).port_spec().incoming()[0] == MSG_OK
                &&& pass == (old(self).port_spec().incoming()[1] == challenge)
                &&& final(self).port_spec().written() == old(self).port_spec().written()
                    + test_request(challenge)
                &&& final(self).port_spec().incoming() == old(self).port_spec().incoming().skip(2)
            },
            r matches Err(e) ==> match e {
                B15FCommandError::B15FError => {
                    &&& old(self).port_spec().incoming().len() >= 2
                    &&& old(self).port_spec().incoming()[0] != MSG_OK
                    &&& final(self).port_spec().written() == old(self).port_spec().written()
                        + test_request(challenge)
                    &&& final(self).port_spec().incoming() == old(self).port_spec().incoming().skip(2)
                },
                B15FCommandError::IoError(_) => true,
                B15FCommandError::ContractViolation => false,
            },
    {
        let mut data: Vec<u8> = Vec::new();
        data.push(RQ_TEST);
        data.push(challenge);
        proof {
            assert(data@ =~= test_request(challenge));
        }
        match self.port.write_all(data.as_slice()) {
            Ok(_) => {},
            Err(e) => {
                return Err(B15FCommandError::IoError(e));
            },
        }
        match self.port.flush() {
            Ok(_) => {},
            Err(e) => {
                return Err(B15FCommandError::IoError(e));
            },
        }
        let response = match self.port.read_exact(2) {
            Ok(bytes) => bytes,
            Err(e) => {
                return Err(B15FCommandError::IoError(e));
            },
        };
        if response[0] != MSG_OK {
            return Err(B15FCommandError::B15FError);
        }
        let pass = response[1] == challenge;
        Ok(pass)
    }

    /// One handshake round trip with a freshly drawn random challenge.  The
    /// challenge sent is the last byte written, so the contract names it
    /// through the write log.
    pub fn test(&mut self) -> (r: Result<bool, B15FCommandError>)
        ensures
            r matches Ok(pass) ==> {
                &&& old(self).port_spec().incoming().len() >= 2
                &&& old(self).port_spec().incoming()[0] == MSG_OK
                &&& final(self).port_spec().written().len() == old(self).port_spec().written().len()
                    + 2
                &&& final(self).port_spec().written() == old(self).port_spec().written()
                    + test_request(final(self).port_spec().written().last())
                &&& pass == (old(self).port_spec().incoming()[1] == final(self).port_spec().written().last())
                &&& final(self).port_spec().incoming() == old(self).port_spec().incoming().skip(2)
            },
            r matches Err(e) ==> match e {
                B15FCommandError::B15FError => {
                    &&& old(self).port_spec().incoming().len() >= 2
                    &&& old(self).port_spec().incoming()[0] != MSG_OK
                    &&& final(self).port_spec().written().len() == old(
                        self,
                    ).port_spec().written().len() + 2
                    &&& final(self).port_spec().written() == old(self).port_spec().written()
                        + test_request(final(self).port_spec().written().last())
                    &&& final(self).port_spec().incoming() == old(self).port_spec().incoming().skip(
                        2,
                    )
                },
                B15FCommandError::IoError(_) => true,
                B15FCommandError::ContractViolation => false,
            },
    {
        let challenge = random_u8();
        self.test_with_challenge(challenge)
    }

    /// Write a digital value to a port: send the port's write opcode and the
    /// value, then read one status byte.  `Ok` exactly when the board
    /// answered `MSG_OK`.
    pub fn digital_write(&mut self, port: Port, value: u8) -> (r: Result<(), B15FCommandError>)
        ensures
            r is Ok ==> {
                &&& old(self).port_spec().incoming().len() >= 1
                &&& old(self).port_spec().incoming()[0] == MSG_OK
                &&& final(self).port_spec().written() == old(self).port_spec().written()
                    + digital_write_request(port, value)
                &&& final(self).port_spec().incoming() == old(self).port_spec().incoming().skip(1)
            },
            r matches Err(e) ==> match e {
                B15FCommandError::B15FError => {
                    &&& old(self).port_spec().incoming().len() >= 1
                    &&& old(self).port_spec().incoming()[0] != MSG_OK
                    &&& final(self).port_spec().written() == old(self).port_spec().written()
                        + digital_write_request(port, value)
                    &&& final(self).port_spec().incoming() == old(self).port_spec().incoming().skip(1)
                },
                B15FCommandError::IoError(_) => true,
                B15FCommandError::ContractViolation => false,
            },
    {
        let request = match port {
            Port::Port0 => RQ_DIGITAL_WRITE_0,
            Port::Port1 => RQ_DIGITAL_WRITE_1,
        };
        let mut data: Vec<u8> = Vec::new();
        data.push(request);
        data.push(value);
        proof {
            assert(data@ =~= digital_write_request(port, value));
        }
        match self.port.write_all(data.as_slice()) {
            Ok(_) => {},
            Err(e) => {
                return Err(B15FCommandError::IoError(e));
            },
        }
        match self.port.flush() {
            Ok(_) => {},
            Err(e) => {
                return Err(B15FCommandError::IoError(e));
            },
        }
        let response = match self.port.read_exact(1) {
            Ok(bytes) => bytes,
            Err(e) => {
                return Err(B15FCommandError::IoError(e));
            },
        };
        if response[0] == MSG_OK {
            Ok(())
        } else {
            Err(B15FCommandError::B15FError)
        }
    }

    /// Read the digital value of a port.  The board transmits the bits in
    /// reverse order, so the decoded value is the bit-reversal of the byte
    /// the transport delivered.  No status byte is defined for this command.
    pub fn digital_read(&mut self, port: Port) -> (r: Result<u8, B15FCommandError>)
        ensures
            r matches Ok(value) ==> {
                &&& old(self).port_spec().incoming().len() >= 1
                &&& value == spec_reverse_bits(old(self).port_spec().incoming()[0])
                &&& final(self).port_spec().written() == old(self).port_spec().written()
                    + digital_read_request(port)
                &&& final(self).port_spec().incoming() == old(self).port_spec().incoming().skip(1)
            },
            r matches Err(e) ==> e matches B15FCommandError::IoError(_),
    {
        match self.send_digital_read_request(port) {
            Ok(_) => {},
            Err(e) => {
                return Err(e);
            },
        }
        self.read_digital_response()
    }

    /// Send the read request for a digital port and flush, without reading
    /// the response yet.
    pub(crate) fn send_digital_read_request(&mut self, port: Port) -> (r: Result<
        (),
        B15FCommandError,
    >)
        ensures
            r is Ok ==> {
                &&& final(self).port_spec().written() == old(self).port_spec().written()
                    + digital_read_request(port)
                &&& final(self).port_spec().incoming() == old(self).port_spec().incoming()
            },
            r matches Err(e) ==> e matches B15FCommandError::IoError(_),
    {
        let request = match port {
            Port::Port0 => RQ_DIGITAL_READ_0,
            Port::Port1 => RQ_DIGITAL_READ_1,
        };
        let mut data: Vec<u8> = Vec::new();
        data.push(request);
        proof {
            assert(data@ =~= digital_read_request(port));
        }
        match self.port.write_all(data.as_slice()) {
            Ok(_) => {},
            Err(e) => {
                return Err(B15FCommandError::IoError(e));
            },
        }
        match self.port.flush() {
            Ok(_) => {},
            Err(e) => {
                return Err(B15FCommandError::IoError(e));
            },
        }
        Ok(())
    }

    /// Read and decode the one-byte response of a digital read.
    pub(crate) fn read_digital_response(&mut self) -> (r: Result<u8, B15FCommandError>)
        ensures
            r matches Ok(value) ==> {
                &&& old(self).port_spec().incoming().len() >= 1
                &&& value == spec_reverse_bits(old(self).port_spec().incoming()[0])
                &&& final(self).port_spec().written() == old(self).port_spec().written()
                &&& final(self).port_spec().incoming() == old(self).port_spec().incoming().skip(1)
            },
            r matches Err(e) ==> e matches B15FCommandError::IoError(_),
    {
        let response = match self.port.read_exact(1) {
            Ok(bytes) => bytes,
            Err(e) => {
                return Err(B15FCommandError::IoError(e));
            },
        };
        Ok(reverse_bits(response[0]))
    }

    /// Write an analog value in `[0, 1023]` to a port: send the port's
    /// opcode and the value's little-endian bytes, then read one status
    /// byte.  A value above 1023 is a caller contract violation and is
    /// rejected before any byte is written.
    pub fn analog_write(&mut self, port: Port, value: u16) -> (r: Result<(), B15FCommandError>)
        ensures
            value > ANALOG_WRITE_MAX ==> {
                &&& r == Err::<(), B15FCommandError>(B15FCommandError::ContractViolation)
                &&& *final(self) == *old(self)
            },
            value <= ANALOG_WRITE_MAX ==> (r is Ok ==> {
                &&& old(self).port_spec().incoming().len() >= 1
                &&& old(self).port_spec().incoming()[0] == MSG_OK
                &&& final(self).port_spec().written() == old(self).port_spec().written()
                    + analog_write_request(port, value)
                &&& final(self).port_spec().incoming() == old(self).port_spec().incoming().skip(1)
            }),
            value <= ANALOG_WRITE_MAX ==> (r matches Err(e) ==> match e {
                B15FCommandError::B15FError => {
                    &&& old(self).port_spec().incoming().len() >= 1
                    &&& old(self).port_spec().incoming()[0] != MSG_OK
                    &&& final(self).port_spec().written() == old(self).port_spec().written()
                        + analog_write_request(port, value)
                    &&& final(self).port_spec().incoming() == old(self).port_spec().incoming().skip(1)
                },
                B15FCommandError::IoError(_) => true,
                B15FCommandError::ContractViolation => false,
            }),
    {
        if value > ANALOG_WRITE_MAX {
            return Err(B15FCommandError::ContractViolation);
        }
        let request = match port {
            Port::Port0 => RQ_ANALOG_WRITE_0,
            Port::Port1 => RQ_ANALOG_WRITE_1,
        };
        let mut data: Vec<u8> = Vec::new();
        data.push(request);
        data.push((value & 0xFF) as u8);
        data.push((value >> 8) as u8);
        proof {
            assert(data@ =~= analog_write_request(port, value));
        }
        match self.port.write_all(data.as_slice()) {
            Ok(_) => {},
            Err(e) => {
                return Err(B15FCommandError::IoError(e));
            },
        }
        match self.port.flush() {
            Ok(_) => {},
            Err(e) => {
                return Err(B15FCommandError::IoError(e));
            },
        }
        let response = match self.port.read_exact(1) {
            Ok(bytes) => bytes,
            Err(e) => {
                return Err(B15FCommandError::IoError(e));
            },
        };
        if response[0] == MSG_OK {
            Ok(())
        } else {
            Err(B15FCommandError::B15FError)
        }
    }

    /// Read the analog value of a channel in `[0, 7]`: send the opcode and
    /// the channel byte, read two bytes, and combine them little-endian.
    /// No status byte is defined: the board always returns a reading.  A
    /// channel above 7 is a caller contract violation and is rejected
    /// before any byte is written.
    pub fn analog_read(&mut self, port: u8) -> (r: Result<u16, B15FCommandError>)
        ensures
            port > ANALOG_READ_MAX_CHANNEL ==> {
                &&& r == Err::<u16, B15FCommandError>(B15FCommandError::ContractViolation)
                &&& *final(self) == *old(self)
            },
            port <= ANALOG_READ_MAX_CHANNEL ==> (r matches Ok(value) ==> {
                &&& old(self).port_spec().incoming().len() >= 2
                &&& value == le16(
                    old(self).port_spec().incoming()[0],
                    old(self).port_spec().incoming()[1],
                )
                &&& final(self).port_spec().written() == old(self).port_spec().written()
                    + analog_read_request(port)
                &&& final(self).port_spec().incoming() == old(self).port_spec().incoming().skip(2)
            }),
            port <= ANALOG_READ_MAX_CHANNEL ==> (r matches Err(e) ==> e matches B15FCommandError::IoError(_)),
    {
        if port > ANALOG_READ_MAX_CHANNEL {
            return Err(B15FCommandError::ContractViolation);
        }
        match self.send_analog_read_request(port) {
            Ok(_) => {},
            Err(e) => {
                return Err(e);
            },
        }
        self.read_analog_response()
    }

    /// Send the read request for an analog channel and flush, without
    /// reading the response yet.
    pub(crate) fn send_analog_read_request(&mut self, port: u8) -> (r: Result<
        (),
        B15FCommandError,
    >)
        requires
            port <= ANALOG_READ_MAX_CHANNEL,
        ensures
            r is Ok ==> {
                &&& final(self).port_spec().written() == old(self).port_spec().written()
                    + analog_read_request(port)
                &&& final(self).port_spec().incoming() == old(self).port_spec().incoming()
            },
            r matches Err(e) ==> e matches B15FCommandError::IoError(_),
    {
        let mut data: Vec<u8> = Vec::new();
        data.push(RQ_ANALOG_READ);
        data.push(port);
        proof {
            assert(data@ =~= analog_read_request(port));
        }
        match self.port.write_all(data.as_slice()) {
            Ok(_) => {},
            Err(e) => {
                return Err(B15FCommandError::IoError(e));
            },
        }
        match self.port.flush() {
            Ok(_) => {},
            Err(e) => {
                return Err(B15FCommandError::IoError(e));
            },
        }
        Ok(())
    }

    /// Read and decode the two-byte little-endian response of an analog
    /// read.
    pub(crate) fn read_analog_response(&mut self) -> (r: Result<u16, B15FCommandError>)
        ensures
            r matches Ok(value) ==> {
                &&& old(self).port_spec().incoming().len() >= 2
                &&& value == le16(
                    old(self).port_spec().incoming()[0],
                    old(self).port_spec().incoming()[1],
                )
                &&& final(self).port_spec().written() == old(self).port_spec().written()
                &&& final(self).port_spec().incoming() == old(self).port_spec().incoming().skip(2)
            },
            r matches Err(e) ==> e matches B15FCommandError::IoError(_),
    {
        let response = match self.port.read_exact(2) {
            Ok(bytes) => bytes,
            Err(e) => {
                return Err(B15FCommandError::IoError(e));
            },
        };
        Ok(u16_from_le_pair(response[0], response[1]))
    }

    /// Set the PWM frequency, given as the IEEE-754 bit pattern of the
    /// frequency in hertz: send the opcode and the four little-endian bytes
    /// of the pattern, then read one byte.  The response byte is handed back
    /// raw; the protocol does not define it as a status.
    pub fn set_pwm_frequency(&mut self, frequency_bits: u32) -> (r: Result<u8, B15FCommandError>)
        ensures
            r matches Ok(code) ==> {
                &&& old(self).port_spec().incoming().len() >= 1
                &&& code == old(self).port_spec().incoming()[0]
                &&& final(self).port_spec().written() == old(self).port_spec().written()
                    + pwm_frequency_request(frequency_bits)
                &&& final(self).port_spec().incoming() == old(self).port_spec().incoming().skip(1)
            },
            r matches Err(e) ==> e matches B15FCommandError::IoError(_),
    {
        let mut data: Vec<u8> = Vec::new();
        data.push(RQ_PWM_SET_FREQ);
        data.push((frequency_bits & 0xFF) as u8);
        data.push(((frequency_bits >> 8) & 0xFF) as u8);
        data.push(((frequency_bits >> 16) & 0xFF) as u8);
        data.push(((frequency_bits >> 24) & 0xFF) as u8);
        proof {
            assert(data@ =~= pwm_frequency_request(frequency_bits));
        }
        match self.port.write_all(data.as_slice()) {
            Ok(_) => {},
            Err(e) => {
                return Err(B15FCommandError::IoError(e));
            },
        }
        match self.port.flush() {
            Ok(_) => {},
            Err(e) => {
                return Err(B15FCommandError::IoError(e));
            },
        }
        let response = match self.port.read_exact(1) {
            Ok(bytes) => bytes,
            Err(e) => {
                return Err(B15FCommandError::IoError(e));
            },
        };
        Ok(response[0])
    }

    /// Set the PWM value: send the opcode and the value, then read one
    /// status byte.  `Ok` exactly when the board answered `MSG_OK`.
    pub fn set_pwm_vale(&mut self, value: u8) -> (r: Result<(), B15FCommandError>)
        ensures
            r is Ok ==> {
                &&& old(self).port_spec().incoming().len() >= 1
                &&& old(self).port_spec().incoming()[0] == MSG_OK
                &&& final(self).port_spec().written() == old(self).port_spec().written()
                    + pwm_value_request(value)
                &&& final(self).port_spec().incoming() == old(self).port_spec().incoming().skip(1)
            },
            r matches Err(e) ==> match e {
                B15FCommandError::B15FError => {
                    &&& old(self).port_spec().incoming().len() >= 1
                    &&& old(self).port_spec().incoming()[0] != MSG_OK
                    &&& final(self).port_spec().written() == old(self).port_spec().written()
                        + pwm_value_request(value)
                    &&& final(self).port_spec().incoming() == old(self).port_spec().incoming().skip(1)
                },
                B15FCommandError::IoError(_) => true,
                B15FCommandError::ContractViolation => false,
            },
    {
        let mut data: Vec<u8> = Vec::new();
        data.push(RQ_PWM_SET_VALUE);
        data.push(value);
        proof {
            assert(data@ =~= pwm_value_request(value));
        }
        match self.port.write_all(data.as_slice()) {
            Ok(_) => {},
            Err(e) => {
                return Err(B15FCommandError::IoError(e));
            },
        }
        match self.port.flush() {
            Ok(_) => {},
            Err(e) => {
                return Err(B15FCommandError::IoError(e));
            },
        }
        let response = match self.port.read_exact(1) {
            Ok(bytes) => bytes,
            Err(e) => {
                return Err(B15FCommandError::IoError(e));
            },
        };
        if response[0] == MSG_OK {
            Ok(())
        } else {
            Err(B15FCommandError::B15FError)
        }
    }

    /// Send every selected read request, flush once more, then read every
    /// response, all in the fixed port order.  Digital results decode by
    /// bit reversal into the first pair of the result; analog results
    /// decode little-endian into the second; unselected slots stay zero.
    ///
    /// The analog result array has seven slots, so the eighth analog
    /// channel must not be selected.
    ///
    /// Batching is experimental: it assumes a board revision that queues
    /// requests while responses are pending.
    pub fn experiment_read_many(&mut self, ports: ReadManyPorts) -> (r: Result<
        ([u8; 2], [u16; 7]),
        B15FCommandError,
    >)
        requires
            !analog_selected(ports, 7),
        ensures
            r matches Ok(result) ==> {
                let inc = old(self).port_spec().incoming();
                &&& inc.len() >= read_many_response_len(ports)
                &&& final(self).port_spec().written() == old(self).port_spec().written()
                    + read_many_request(ports)
                &&& final(self).port_spec().incoming() == inc.skip(read_many_response_len(ports))
                &&& forall|i: int|
                    0 <= i < 2 ==> result.0@[i] == (if digital_selected(ports, i) {
                        spec_reverse_bits(inc[digital_response_offset(ports, i)])
                    } else {
                        0u8
                    })
                &&& forall|i: int|
                    0 <= i < 7 ==> result.1@[i] == (if analog_selected(ports, i) {
                        le16(
                            inc[analog_response_offset(ports, i)],
                            inc[analog_response_offset(ports, i) + 1],
                        )
                    } else {
                        0u16
                    })
            },
            r matches Err(e) ==> e matches B15FCommandError::IoError(_),
    {
        let ghost w0 = old(self).port_spec().written();
        let ghost inc0 = old(self).port_spec().incoming();

        // Send the digital requests.
        if ports.contains(ReadManyPorts::digital0()) {
            match self.send_digital_read_request(Port::Port0) {
                Ok(_) => {},
                Err(e) => {
                    return Err(e);
                },
            }
        }
        proof {
            assert(self.port_spec().written() =~= w0 + (if digital_selected(ports, 0) {
                digital_read_request(Port::Port0)
            } else {
                Seq::<u8>::empty()
            }));
        }
        if ports.contains(ReadManyPorts::digital1()) {
            match self.send_digital_read_request(Port::Port1) {
                Ok(_) => {},
                Err(e) => {
                    return Err(e);
                },
            }
        }
        proof {
            assert(self.port_spec().written() =~= w0 + digital_request_block(ports));
            assert(self.port_spec().incoming() == inc0);
        }

        // Send the analog requests.
        let mut i: u8 = 0;
        while i < 8
            invariant
                i <= 8,
                self.port_spec().written() == w0 + digital_request_block(ports)
                    + analog_request_block(ports, i as int),
                self.port_spec().incoming() == inc0,
            decreases 8 - i,
        {
            if ports.contains(ReadManyPorts::from_analog(i)) {
                match self.send_analog_read_request(i) {
                    Ok(_) => {},
                    Err(e) => {
                        return Err(e);
                    },
                }
            }
            proof {
                assert(self.port_spec().written() =~= w0 + digital_request_block(ports)
                    + analog_request_block(ports, i + 1));
            }
            i = i + 1;
        }
        match self.port.flush() {
            Ok(_) => {},
            Err(e) => {
                return Err(B15FCommandError::IoError(e));
            },
        }
        proof {
            assert(self.port_spec().written() == w0 + read_many_request(ports));
        }

        // Read the digital responses.
        let mut digital0_value: u8 = 0;
        if ports.contains(ReadManyPorts::digital0()) {
            digital0_value = match self.read_digital_response() {
                Ok(v) => v,
                Err(e) => {
                    return Err(e);
                },
            };
        }
        proof {
            lemma_n_digital_unfold(ports);
            assert(self.port_spec().incoming() =~= inc0.skip(n_digital_selected(ports, 1)));
            assert(inc0.len() >= n_digital_selected(ports, 1));
        }
        let mut digital1_value: u8 = 0;
        if ports.contains(ReadManyPorts::digital1()) {
            digital1_value = match self.read_digital_response() {
                Ok(v) => v,
                Err(e) => {
                    return Err(e);
                },
            };
        }
        proof {
            lemma_n_digital_unfold(ports);
            assert(self.port_spec().incoming() =~= inc0.skip(n_digital_selected(ports, 2)));
            assert(inc0.len() >= n_digital_selected(ports, 2));
        }

        // Read the analog responses.
        let mut analog_values: Vec<u16> = Vec::new();
        let mut j: u8 = 0;
        while j < 7
            invariant
                j <= 7,
                analog_values@.len() == j as int,
                self.port_spec().written() == w0 + read_many_request(ports),
                self.port_spec().incoming() == inc0.skip(
                    n_digital_selected(ports, 2) + 2 * n_analog_selected(ports, j as int),
                ),
                inc0.len() >= n_digital_selected(ports, 2) + 2 * n_analog_selected(
                    ports,
                    j as int,
                ),
                forall|m: int|
                    0 <= m < j as int ==> analog_values@[m] == (if analog_selected(ports, m) {
                        le16(
                            inc0[analog_response_offset(ports, m)],
                            inc0[analog_response_offset(ports, m) + 1],
                        )
                    } else {
                        0u16
                    }),
            decreases 7 - j,
        {
            proof {
                lemma_n_digital_unfold(ports);
                lemma_n_analog_nonneg(ports, j as int);
            }
            let mut value: u16 = 0;
            if ports.contains(ReadManyPorts::from_analog(j)) {
                value = match self.read_analog_response() {
                    Ok(v) => v,
                    Err(e) => {
                        return Err(e);
                    },
                };
                proof {
                    let off = n_digital_selected(ports, 2) + 2 * n_analog_selected(
                        ports,
                        j as int,
                    );
                    assert(0 <= off <= inc0.len());
                    assert(inc0.skip(off).len() == inc0.len() - off);
                    assert(inc0.skip(off).skip(2) =~= inc0.skip(off + 2));
                }
            }
            analog_values.push(value);
            j = j + 1;
        }

        proof {
            assert(n_analog_selected(ports, 8) == n_analog_selected(ports, 7));
        }
        let digital_result: [u8; 2] = [digital0_value, digital1_value];
        let analog_result: [u16; 7] = [
            analog_values[0],
            analog_values[1],
            analog_values[2],
            analog_values[3],
            analog_values[4],
            analog_values[5],
            analog_values[6],
        ];
        Ok((digital_result, analog_result))
    }
}

} // verus!
