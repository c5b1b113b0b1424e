//! Wire-level constants and request/response shapes of the board protocol.
//!
//! Every request starts with one opcode byte, optionally followed by a fixed
//! number of payload bytes; the response length is determined by the opcode
//! alone.  Multi-byte numbers travel in little-endian order.

use vstd::prelude::*;

verus! {

/// Baud rate every transport to the board is opened with.
pub const BAUD: u32 = 57600;

/// Status byte the board sends when a status-bearing command succeeded.
/// Any other value in a status position is a board-reported failure.
pub const MSG_OK: u8 = 0xFF;

/// Opcode of the echo self-test (handshake) command.
pub const RQ_TEST: u8 = 1;

/// Opcode: write a digital value to port 0.
pub const RQ_DIGITAL_WRITE_0: u8 = 5;

/// Opcode: write a digital value to port 1.
pub const RQ_DIGITAL_WRITE_1: u8 = 6;

/// Opcode: read the digital value of port 0.
pub const RQ_DIGITAL_READ_0: u8 = 7;

/// Opcode: read the digital value of port 1.
pub const RQ_DIGITAL_READ_1: u8 = 8;

/// Opcode: write an analog value to port 0.
pub const RQ_ANALOG_WRITE_0: u8 = 10;

/// Opcode: write an analog value to port 1.
pub const RQ_ANALOG_WRITE_1: u8 = 11;

/// Opcode: read an analog channel.
pub const RQ_ANALOG_READ: u8 = 12;

/// Opcode: set the PWM frequency.
pub const RQ_PWM_SET_FREQ: u8 = 14;

/// Opcode: set the PWM value.
pub const RQ_PWM_SET_VALUE: u8 = 15;

/// Largest value an analog write accepts.
pub const ANALOG_WRITE_MAX: u16 = 1023;

/// Largest channel index an analog read accepts.
pub const ANALOG_READ_MAX_CHANNEL: u8 = 7;

/// Selector for the two digital/analog write ports of the board.
#[derive(Debug, Copy, Clone)]
pub enum Port {
    Port0,
    Port1,
}

/// Opcode that writes a digital value to the given port.
pub open spec fn digital_write_opcode(port: Port) -> u8 {
    match port {
        Port::Port0 => RQ_DIGITAL_WRITE_0,
        Port::Port1 => RQ_DIGITAL_WRITE_1,
    }
}

/// Opcode that reads the digital value of the given port.
pub open spec fn digital_read_opcode(port: Port) -> u8 {
    match port {
        Port::Port0 => RQ_DIGITAL_READ_0,
        Port::Port1 => RQ_DIGITAL_READ_1,
    }
}

/// Opcode that writes an analog value to the given port.
pub open spec fn analog_write_opcode(port: Port) -> u8 {
    match port {
        Port::Port0 => RQ_ANALOG_WRITE_0,
        Port::Port1 => RQ_ANALOG_WRITE_1,
    }
}

/// Request bytes of the handshake: the opcode and the challenge byte the
/// board must echo.
pub open spec fn test_request(challenge: u8) -> Seq<u8> {
    seq![RQ_TEST, challenge]
}

/// Request bytes of a digital write.
pub open spec fn digital_write_request(port: Port, value: u8) -> Seq<u8> {
    seq![digital_write_opcode(port), value]
}

/// Request bytes of a digital read.
pub open spec fn digital_read_request(port: Port) -> Seq<u8> {
    seq![digital_read_opcode(port)]
}

/// Request bytes of an analog write: opcode, low byte, high byte.
pub open spec fn analog_write_request(port: Port, value: u16) -> Seq<u8> {
    seq![analog_write_opcode(port), (value & 0xFF) as u8, (value >> 8) as u8]
}

/// Request bytes of an analog read of the given channel.
pub open spec fn analog_read_request(channel: u8) -> Seq<u8> {
    seq![RQ_ANALOG_READ, channel]
}

/// Request bytes of a PWM frequency set: the opcode followed by the four
/// little-endian bytes of the frequency's IEEE-754 bit pattern.
pub open spec fn pwm_frequency_request(frequency_bits: u32) -> Seq<u8> {
    seq![
        RQ_PWM_SET_FREQ,
        (frequency_bits & 0xFF) as u8,
        ((frequency_bits >> 8) & 0xFF) as u8,
        ((frequency_bits >> 16) & 0xFF) as u8,
        ((frequency_bits >> 24) & 0xFF) as u8,
    ]
}

/// Request bytes of a PWM value set.
pub open spec fn pwm_value_request(value: u8) -> Seq<u8> {
    seq![RQ_PWM_SET_VALUE, value]
}

/// The byte with its bit order reversed: the board transmits digital reads
/// with the bits in reverse order relative to the host convention.
pub open spec fn spec_reverse_bits(b: u8) -> u8 {
    ((b & 0x01) << 7) | ((b & 0x02) << 5) | ((b & 0x04) << 3) | ((b & 0x08) << 1) | ((b & 0x10)
        >> 1) | ((b & 0x20) >> 3) | ((b & 0x40) >> 5) | ((b & 0x80) >> 7)
}

/// Bit `i` of the reversed byte is bit `7 - i` of the original.
pub proof fn lemma_reverse_bits_bit(b: u8, i: u8)
    requires
        i < 8,
    ensures
        (spec_reverse_bits(b) >> i) & 1 == (b >> ((7 - i) as u8)) & 1,
{
    assert((spec_reverse_bits(b) >> i) & 1 == (b >> ((7 - i) as u8)) & 1) by (bit_vector)
        requires
            i < 8,
    ;
}

/// Bit reversal of one byte.
pub fn reverse_bits(b: u8) -> (r: u8)
    ensures
        r == spec_reverse_bits(b),
{
    ((b & 0x01) << 7) | ((b & 0x02) << 5) | ((b & 0x04) << 3) | ((b & 0x08) << 1) | ((b & 0x10)
        >> 1) | ((b & 0x20) >> 3) | ((b & 0x40) >> 5) | ((b & 0x80) >> 7)
}

/// The unsigned 16-bit value whose little-endian bytes are `lo`, `hi`.
pub open spec fn le16(lo: u8, hi: u8) -> u16 {
    (lo + hi * 256) as u16
}

/// Combine a little-endian byte pair into its 16-bit value.
pub fn u16_from_le_pair(lo: u8, hi: u8) -> (r: u16)
    ensures
        r == le16(lo, hi),
{
    lo as u16 + (hi as u16) * 256
}

} // verus!
