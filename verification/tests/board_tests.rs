//! Round-trip tests for every board command, driven against a scripted
//! in-memory transport standing in for the board.

use b15f::{B15FCommandError, B15FInitError, Port, ScriptTransport, B15F};

/// A session whose handshake already passed, with the given replies
/// scripted after the handshake's own two bytes.
fn session_with_replies(replies: &[u8]) -> B15F<ScriptTransport> {
    let mut script: Vec<u8> = vec![0xFF, 0x2A];
    script.extend_from_slice(replies);
    let transport = ScriptTransport::new(script);
    B15F::from_with_challenge(transport, 0x2A).expect("handshake must pass")
}

#[test]
fn handshake_pass_on_matching_echo() {
    let transport = ScriptTransport::new(vec![0xFF, 0x42]);
    let board = B15F::from_with_challenge(transport, 0x42).expect("echo matches");
    assert_eq!(board.port().written_bytes(), &vec![1u8, 0x42]);
    assert!(board.port().remaining_script().is_empty());
}

#[test]
fn handshake_mismatch_is_device_not_supported() {
    let transport = ScriptTransport::new(vec![0xFF, 0x43]);
    let r = B15F::from_with_challenge(transport, 0x42);
    assert!(matches!(r, Err(B15FInitError::DeviceNotSupported)));
}

#[test]
fn handshake_status_failure_is_device_not_supported() {
    // The round trip completed, but the status byte is not OK: the endpoint
    // answered, just not like a board.  This must not surface as a command
    // error.
    let transport = ScriptTransport::new(vec![0x00, 0x42]);
    let r = B15F::from_with_challenge(transport, 0x42);
    assert!(matches!(r, Err(B15FInitError::DeviceNotSupported)));
}

#[test]
fn handshake_on_silent_transport_is_io_error() {
    let transport = ScriptTransport::new(vec![]);
    let r = B15F::from_with_challenge(transport, 0x42);
    assert!(matches!(
        r,
        Err(B15FInitError::CommandError(B15FCommandError::IoError(_)))
    ));
}

#[test]
fn random_handshake_status_failure_is_device_not_supported() {
    // Whatever challenge byte `from` draws, a non-OK status byte fails the
    // handshake before the echo is compared, and the endpoint is reported
    // as not supported.
    let transport = ScriptTransport::new(vec![0x00, 0x00]);
    let r = B15F::from(transport);
    assert!(matches!(r, Err(B15FInitError::DeviceNotSupported)));
}

#[test]
fn test_with_challenge_echo_pass_and_fail() {
    let mut board = session_with_replies(&[0xFF, 0x77]);
    assert_eq!(board.test_with_challenge(0x77).unwrap(), true);

    let mut board = session_with_replies(&[0xFF, 0x78]);
    assert_eq!(board.test_with_challenge(0x77).unwrap(), false);

    let mut board = session_with_replies(&[0xAB, 0x77]);
    assert!(matches!(
        board.test_with_challenge(0x77),
        Err(B15FCommandError::B15FError)
    ));
}

#[test]
fn digital_write_request_bytes_and_status() {
    let mut board = session_with_replies(&[0xFF]);
    board.digital_write(Port::Port0, 0xA5).unwrap();
    assert_eq!(
        board.port().written_bytes(),
        &vec![1u8, 0x2A, 5, 0xA5],
        "handshake then opcode 5 and the value"
    );

    let mut board = session_with_replies(&[0xFF]);
    board.digital_write(Port::Port1, 0x01).unwrap();
    assert_eq!(board.port().written_bytes(), &vec![1u8, 0x2A, 6, 0x01]);

    let mut board = session_with_replies(&[0xFE]);
    assert!(matches!(
        board.digital_write(Port::Port0, 0),
        Err(B15FCommandError::B15FError)
    ));

    let mut board = session_with_replies(&[]);
    assert!(matches!(
        board.digital_write(Port::Port0, 0),
        Err(B15FCommandError::IoError(_))
    ));
}

#[test]
fn digital_read_reverses_the_bits() {
    let mut board = session_with_replies(&[0b1000_0001]);
    assert_eq!(board.digital_read(Port::Port0).unwrap(), 0b1000_0001);
    assert_eq!(board.port().written_bytes(), &vec![1u8, 0x2A, 7]);

    let mut board = session_with_replies(&[0b0000_0001]);
    assert_eq!(board.digital_read(Port::Port0).unwrap(), 0b1000_0000);

    let mut board = session_with_replies(&[0b1100_0000]);
    assert_eq!(board.digital_read(Port::Port1).unwrap(), 0b0000_0011);
    assert_eq!(board.port().written_bytes(), &vec![1u8, 0x2A, 8]);

    let mut board = session_with_replies(&[]);
    assert!(matches!(
        board.digital_read(Port::Port0),
        Err(B15FCommandError::IoError(_))
    ));
}

#[test]
fn analog_write_encodes_little_endian() {
    let mut board = session_with_replies(&[0xFF]);
    board.analog_write(Port::Port0, 0).unwrap();
    assert_eq!(board.port().written_bytes(), &vec![1u8, 0x2A, 10, 0, 0]);

    let mut board = session_with_replies(&[0xFF]);
    board.analog_write(Port::Port1, 1023).unwrap();
    assert_eq!(board.port().written_bytes(), &vec![1u8, 0x2A, 11, 0xFF, 0x03]);

    let mut board = session_with_replies(&[0xFF]);
    board.analog_write(Port::Port0, 0x0234).unwrap();
    assert_eq!(board.port().written_bytes(), &vec![1u8, 0x2A, 10, 0x34, 0x02]);

    let mut board = session_with_replies(&[0xFE]);
    assert!(matches!(
        board.analog_write(Port::Port0, 512),
        Err(B15FCommandError::B15FError)
    ));
}

#[test]
fn analog_write_rejects_out_of_range_before_any_byte() {
    let mut board = session_with_replies(&[0xFF]);
    let r = board.analog_write(Port::Port0, 1024);
    assert!(matches!(r, Err(B15FCommandError::ContractViolation)));
    // Nothing was sent and nothing was read: only the handshake is on the
    // wire and the scripted status byte is still unconsumed.
    assert_eq!(board.port().written_bytes(), &vec![1u8, 0x2A]);
    assert_eq!(board.port().remaining_script(), &vec![0xFFu8]);

    let r = board.analog_write(Port::Port1, u16::MAX);
    assert!(matches!(r, Err(B15FCommandError::ContractViolation)));
    assert_eq!(board.port().written_bytes(), &vec![1u8, 0x2A]);
}

#[test]
fn analog_read_decodes_little_endian() {
    let mut board = session_with_replies(&[0x34, 0x12]);
    assert_eq!(board.analog_read(3).unwrap(), 0x1234);
    assert_eq!(board.port().written_bytes(), &vec![1u8, 0x2A, 12, 3]);

    let mut board = session_with_replies(&[0x00, 0x00]);
    assert_eq!(board.analog_read(0).unwrap(), 0);

    let mut board = session_with_replies(&[0xFF, 0xFF]);
    assert_eq!(board.analog_read(7).unwrap(), 0xFFFF);

    let mut board = session_with_replies(&[0x01]);
    assert!(matches!(
        board.analog_read(0),
        Err(B15FCommandError::IoError(_))
    ));
}

#[test]
fn analog_read_rejects_out_of_range_channel_before_any_byte() {
    let mut board = session_with_replies(&[0x34, 0x12]);
    let r = board.analog_read(8);
    assert!(matches!(r, Err(B15FCommandError::ContractViolation)));
    assert_eq!(board.port().written_bytes(), &vec![1u8, 0x2A]);
    assert_eq!(board.port().remaining_script(), &vec![0x34u8, 0x12]);
}

#[test]
fn set_pwm_frequency_sends_float_bits_and_passes_response_through() {
    let mut board = session_with_replies(&[0x42]);
    let bits = 1.0f32.to_bits();
    assert_eq!(board.set_pwm_frequency(bits).unwrap(), 0x42);
    assert_eq!(
        board.port().written_bytes(),
        &vec![1u8, 0x2A, 14, 0x00, 0x00, 0x80, 0x3F]
    );

    // The response byte is raw pass-through, not a status: a non-OK byte is
    // still a successful call.
    let mut board = session_with_replies(&[0x00]);
    assert_eq!(board.set_pwm_frequency(0).unwrap(), 0x00);
    assert_eq!(
        board.port().written_bytes(),
        &vec![1u8, 0x2A, 14, 0x00, 0x00, 0x00, 0x00]
    );

    let mut board = session_with_replies(&[]);
    assert!(matches!(
        board.set_pwm_frequency(bits),
        Err(B15FCommandError::IoError(_))
    ));
}

#[test]
fn set_pwm_vale_round_trip() {
    let mut board = session_with_replies(&[0xFF]);
    board.set_pwm_vale(0x80).unwrap();
    assert_eq!(board.port().written_bytes(), &vec![1u8, 0x2A, 15, 0x80]);

    let mut board = session_with_replies(&[0x7F]);
    assert!(matches!(
        board.set_pwm_vale(0),
        Err(B15FCommandError::B15FError)
    ));

    let mut board = session_with_replies(&[]);
    assert!(matches!(
        board.set_pwm_vale(0),
        Err(B15FCommandError::IoError(_))
    ));
}
