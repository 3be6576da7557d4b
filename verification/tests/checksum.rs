use aces::calculate_checksum;
use aces::verify_checksum;

#[test]
fn test_verify_checksum() {
    assert!(verify_checksum(0xfffd, &[], 0x03));
    assert!(verify_checksum(0xfffc, &[], 0x04));
    assert!(verify_checksum(0xff56, &[], 0xaa));
}

#[test]
fn test_calculate_checksum() {
    assert_eq!(calculate_checksum(&[], 0x03), 0xfffd);
    assert_eq!(calculate_checksum(&[], 0x04), 0xfffc);
    assert_eq!(calculate_checksum(&[], 0xaa), 0xff56);
    assert_eq!(
        calculate_checksum(&[0x0d, 0x0b, 0x0d, 0x0d, 0x0d, 0x0b, 0x0d, 0x0f], 0x00),
        0xFF92
    );
}

#[test]
fn calculate_then_verify() {
    let payloads: [&[u8]; 4] = [&[], &[0x00], &[0x01, 0x02, 0x03], &[0xff; 255]];
    for payload in payloads {
        for control in [0x00u8, 0x03, 0x04, 0xaa, 0xff] {
            let checksum = calculate_checksum(payload, control);
            assert!(verify_checksum(checksum, payload, control));
            assert!(!verify_checksum(checksum.wrapping_add(1), payload, control));
        }
    }
}

#[test]
fn checksum_detects_payload_change() {
    let payload = [0x0d, 0xe2, 0x0d, 0xdc];
    let checksum = calculate_checksum(&payload, 0x00);
    let changed = [0x0d, 0xe2, 0x0d, 0xdd];
    assert!(!verify_checksum(checksum, &changed, 0x00));
}
