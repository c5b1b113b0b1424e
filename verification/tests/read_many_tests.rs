//! Tests of the batched read command and its selection mask.

use b15f::{B15FCommandError, ReadManyPorts, ScriptTransport, B15F};

fn session_with_replies(replies: &[u8]) -> B15F<ScriptTransport> {
    let mut script: Vec<u8> = vec![0xFF, 0x2A];
    script.extend_from_slice(replies);
    let transport = ScriptTransport::new(script);
    B15F::from_with_challenge(transport, 0x2A).expect("handshake must pass")
}

#[test]
fn from_analog_bit_layout() {
    assert_eq!(ReadManyPorts::from_analog(0).bits, 0b0000_0100);
    assert_eq!(ReadManyPorts::from_analog(1).bits, 0b0000_1000);
    assert_eq!(ReadManyPorts::from_analog(2).bits, 0b0001_0000);
    assert_eq!(ReadManyPorts::from_analog(3).bits, 0b0010_0000);
    assert_eq!(ReadManyPorts::from_analog(4).bits, 0b0100_0000);
    assert_eq!(ReadManyPorts::from_analog(5).bits, 0b1000_0000);
    assert_eq!(ReadManyPorts::from_analog(6).bits, 0b0000_0001);
    assert_eq!(ReadManyPorts::from_analog(7).bits, 0b0000_0010);
    assert_eq!(ReadManyPorts::digital0().bits, 0b0000_0001 << 8);
    assert_eq!(ReadManyPorts::digital1().bits, 0b0000_0010 << 8);
}

#[test]
fn union_and_contains() {
    let mask = ReadManyPorts::digital0().union(ReadManyPorts::from_analog(2));
    assert!(mask.contains(ReadManyPorts::digital0()));
    assert!(mask.contains(ReadManyPorts::from_analog(2)));
    assert!(!mask.contains(ReadManyPorts::digital1()));
    assert!(!mask.contains(ReadManyPorts::from_analog(0)));
    assert!(ReadManyPorts::none().bits == 0);
    assert!(!ReadManyPorts::none().contains(ReadManyPorts::digital0()));
}

#[test]
fn read_many_requests_and_responses_in_port_order() {
    let mask = ReadManyPorts::digital0()
        .union(ReadManyPorts::from_analog(0))
        .union(ReadManyPorts::from_analog(2));
    // One digital response byte, then two little-endian bytes per channel.
    let mut board = session_with_replies(&[0b0000_0001, 0x34, 0x12, 0x78, 0x56]);
    let (digital, analog) = board.experiment_read_many(mask).unwrap();

    assert_eq!(
        board.port().written_bytes(),
        &vec![1u8, 0x2A, 7, 12, 0, 12, 2],
        "handshake, digital read of port 0, analog reads of channels 0 and 2"
    );
    assert!(board.port().remaining_script().is_empty());
    assert_eq!(digital, [0b1000_0000, 0]);
    assert_eq!(analog, [0x1234, 0, 0x5678, 0, 0, 0, 0]);
}

#[test]
fn read_many_with_both_digital_ports() {
    let mask = ReadManyPorts::digital0().union(ReadManyPorts::digital1());
    let mut board = session_with_replies(&[0b0000_0001, 0b1000_0000]);
    let (digital, analog) = board.experiment_read_many(mask).unwrap();
    assert_eq!(board.port().written_bytes(), &vec![1u8, 0x2A, 7, 8]);
    assert_eq!(digital, [0b1000_0000, 0b0000_0001]);
    assert_eq!(analog, [0; 7]);
}

#[test]
fn read_many_with_channel_six_uses_its_low_bit() {
    let mask = ReadManyPorts::from_analog(6);
    let mut board = session_with_replies(&[0xCD, 0xAB]);
    let (digital, analog) = board.experiment_read_many(mask).unwrap();
    assert_eq!(board.port().written_bytes(), &vec![1u8, 0x2A, 12, 6]);
    assert_eq!(digital, [0, 0]);
    assert_eq!(analog, [0, 0, 0, 0, 0, 0, 0xABCD]);
}

#[test]
fn read_many_with_empty_mask_touches_nothing() {
    let mut board = session_with_replies(&[]);
    let (digital, analog) = board.experiment_read_many(ReadManyPorts::none()).unwrap();
    assert_eq!(board.port().written_bytes(), &vec![1u8, 0x2A]);
    assert_eq!(digital, [0, 0]);
    assert_eq!(analog, [0; 7]);
}

#[test]
fn read_many_on_short_script_is_io_error() {
    let mask = ReadManyPorts::from_analog(0);
    let mut board = session_with_replies(&[0x01]);
    assert!(matches!(
        board.experiment_read_many(mask),
        Err(B15FCommandError::IoError(_))
    ));
}
