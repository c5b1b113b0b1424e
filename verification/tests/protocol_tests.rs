//! Tests of the wire-level byte math.

use b15f::protocol::{reverse_bits, u16_from_le_pair};

#[test]
fn reverse_bits_examples() {
    assert_eq!(reverse_bits(0b0000_0000), 0b0000_0000);
    assert_eq!(reverse_bits(0b1111_1111), 0b1111_1111);
    assert_eq!(reverse_bits(0b0000_0001), 0b1000_0000);
    assert_eq!(reverse_bits(0b1000_0000), 0b0000_0001);
    assert_eq!(reverse_bits(0b1000_0001), 0b1000_0001);
    assert_eq!(reverse_bits(0b0001_0110), 0b0110_1000);
    assert_eq!(reverse_bits(0b1010_0000), 0b0000_0101);
}

#[test]
fn reverse_bits_matches_std_on_every_byte() {
    for b in 0..=255u8 {
        assert_eq!(reverse_bits(b), b.reverse_bits());
    }
}

#[test]
fn reverse_bits_is_an_involution_on_every_byte() {
    for b in 0..=255u8 {
        assert_eq!(reverse_bits(reverse_bits(b)), b);
    }
}

#[test]
fn u16_from_le_pair_examples() {
    assert_eq!(u16_from_le_pair(0x34, 0x12), 0x1234);
    assert_eq!(u16_from_le_pair(0x00, 0x00), 0x0000);
    assert_eq!(u16_from_le_pair(0xFF, 0xFF), 0xFFFF);
    assert_eq!(u16_from_le_pair(0x01, 0x00), 0x0001);
    assert_eq!(u16_from_le_pair(0x00, 0x01), 0x0100);
    assert_eq!(
        u16_from_le_pair(0x34, 0x12),
        u16::from_le_bytes([0x34, 0x12])
    );
}
