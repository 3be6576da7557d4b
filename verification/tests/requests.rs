use aces::ParseError;
use aces::Request;

#[test]
fn request_bytes_are_the_known_literals() {
    assert_eq!(
        Request::Clear.bytes(),
        vec![0x00, 0x00, 0x00, 0x00, 0x00, 0x00, 0x00]
    );
    assert_eq!(
        Request::BatteryDetail.bytes(),
        vec![0xdd, 0xa5, 0x03, 0x00, 0xff, 0xfd, 0x77]
    );
    assert_eq!(
        Request::BatteryProtect.bytes(),
        vec![0xdd, 0xa5, 0xaa, 0x00, 0xff, 0x56, 0x77]
    );
    assert_eq!(
        Request::BatteryVoltage.bytes(),
        vec![0xdd, 0xa5, 0x04, 0x00, 0xff, 0xfc, 0x77]
    );
}

#[test]
fn is_complete_request_needs_seven_bytes() {
    assert!(!Request::is_complete_request(&[]));
    assert!(!Request::is_complete_request(&[0xdd, 0xa5, 0x03, 0x00, 0xff, 0xfd]));
    assert!(Request::is_complete_request(&[0xdd, 0xa5, 0x03, 0x00, 0xff, 0xfd, 0x77]));
    assert!(Request::is_complete_request(&[0x00; 8]));
}

#[test]
fn parse_request_roundtrips_each_command() {
    for req in [
        Request::Clear,
        Request::BatteryDetail,
        Request::BatteryProtect,
        Request::BatteryVoltage,
    ] {
        assert_eq!(Request::parse_request(&req.bytes()), Ok(req));
    }
}

#[test]
fn parse_request_rejects_short_and_unknown_buffers() {
    assert_eq!(
        Request::parse_request(&[0xdd, 0xa5, 0x03]),
        Err(ParseError::NotEnoughData)
    );
    assert_eq!(
        Request::parse_request(&[0x01, 0x02, 0x03, 0x04, 0x05, 0x06, 0x07]),
        Err(ParseError::InvalidData)
    );
    // a known literal with a trailing byte is not that literal
    assert_eq!(
        Request::parse_request(&[0xdd, 0xa5, 0x03, 0x00, 0xff, 0xfd, 0x77, 0x00]),
        Err(ParseError::InvalidData)
    );
}
