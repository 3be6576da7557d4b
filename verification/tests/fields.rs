use aces::bytes_eq;
use aces::i16_from_bytes;
use aces::u16_from_bytes;

#[test]
fn test_i16_from_bytes() {
    assert_eq!(i16_from_bytes(&[0x00, 0x00]), 0x0000);
    assert_eq!(i16_from_bytes(&[0x12, 0x34]), 0x1234);
    assert_eq!(i16_from_bytes(&[0x56, 0x23]), 0x5623);
}

#[test]
fn i16_from_bytes_negative() {
    assert_eq!(i16_from_bytes(&[0xff, 0xff]), -1);
    assert_eq!(i16_from_bytes(&[0x80, 0x00]), -32768);
    assert_eq!(i16_from_bytes(&[0xfc, 0x2d]), -979);
}

#[test]
fn u16_from_bytes_values() {
    assert_eq!(u16_from_bytes(&[0x00, 0x00]), 0x0000);
    assert_eq!(u16_from_bytes(&[0xdd, 0x04]), 0xdd04);
    assert_eq!(u16_from_bytes(&[0xff, 0xff]), 0xffff);
}

#[test]
fn bytes_eq_compares_whole_slices() {
    assert!(bytes_eq(&[], &[]));
    assert!(bytes_eq(&[1, 2, 3], &[1, 2, 3]));
    assert!(!bytes_eq(&[1, 2, 3], &[1, 2]));
    assert!(!bytes_eq(&[1, 2, 3], &[1, 2, 4]));
}
