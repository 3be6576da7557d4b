use std::collections::VecDeque;

use aces::read_complete_response;
use aces::request_detail;
use aces::request_protect;
use aces::request_soc;
use aces::response_for_request;
use aces::ByteSink;
use aces::NotificationsReceiver;
use aces::Request;
use aces::RequestError;
use aces::Response;
use aces::TransportError;

struct Receiver(VecDeque<Vec<u8>>);

impl NotificationsReceiver for Receiver {
    fn next(&mut self) -> Vec<u8> {
        self.0.pop_front().unwrap()
    }
}

fn receiver(fragments: Vec<Vec<u8>>) -> Receiver {
    Receiver(VecDeque::from_iter(fragments))
}

/// Records every written command; replies are scripted through the
/// receiver instead.
struct Sink {
    written: Vec<Vec<u8>>,
    fail: bool,
}

impl ByteSink for Sink {
    fn send(&mut self, value: &[u8], _request_ack: bool) -> Result<(), TransportError> {
        if self.fail {
            return Err(TransportError);
        }
        self.written.push(value.to_vec());
        Ok(())
    }
}

#[test]
fn test_read_complete_response() {
    let mut recv = receiver(vec![
        vec![0x00],
        vec![0x00, 0x00],
        vec![0x00, 0x00, 0x00],
        vec![0x00],
    ]);
    assert_eq!(
        read_complete_response(&mut recv),
        vec![0x00, 0x00, 0x00, 0x00, 0x00, 0x00, 0x00]
    );

    let mut recv = receiver(vec![
        vec![0xdd, 0x04, 0x00, 0x08],
        vec![0x0d, 0xe2, 0x0d, 0xdc, 0x0d],
        vec![0xec, 0x0d, 0xed, 0xfc],
        vec![0x2d, 0x77],
        vec![0x00],
    ]);
    assert_eq!(
        read_complete_response(&mut recv),
        vec![
            0xdd, 0x04, 0x00, 0x08, 0x0d, 0xe2, 0x0d, 0xdc, 0x0d, 0xec, 0x0d, 0xed, 0xfc, 0x2d,
            0x77
        ]
    );
}

#[test]
fn fragmentation_does_not_affect_the_decoded_record() {
    let frame = response_for_request(&Request::BatteryDetail);

    let mut whole = receiver(vec![frame.clone()]);
    let expected = Response::parse_response(&read_complete_response(&mut whole)).unwrap();

    // one byte at a time
    let mut by_bytes = receiver(frame.iter().map(|b| vec![*b]).collect());
    assert_eq!(
        Response::parse_response(&read_complete_response(&mut by_bytes)).unwrap(),
        expected
    );

    // split mid-header and mid-checksum
    let mut ragged = receiver(vec![
        frame[..2].to_vec(),
        frame[2..frame.len() - 2].to_vec(),
        frame[frame.len() - 2..].to_vec(),
    ]);
    assert_eq!(
        Response::parse_response(&read_complete_response(&mut ragged)).unwrap(),
        expected
    );
}

#[test]
fn request_soc_round_trip() {
    let mut sink = Sink { written: Vec::new(), fail: false };
    let mut recv = receiver(vec![response_for_request(&Request::BatteryVoltage)]);
    let soc = request_soc(&mut sink, &mut recv).unwrap();
    // 0x0DE2 + 0x0DDC + 0x0DEC + 0x0DED
    assert_eq!(soc, 3554 + 3548 + 3564 + 3565);
    assert_eq!(sink.written, vec![Request::BatteryVoltage.bytes()]);
}

#[test]
fn request_detail_round_trip() {
    let mut sink = Sink { written: Vec::new(), fail: false };
    let mut recv = receiver(vec![response_for_request(&Request::BatteryDetail)]);
    let detail = request_detail(&mut sink, &mut recv).unwrap();
    assert_eq!(detail.total_voltage, 1336);
    assert_eq!(detail.current, 643);
    assert_eq!(detail.cycles, 9);
    assert!(detail.charge);
    assert!(detail.discharge);
    assert_eq!(detail.battery_number, 4);
    assert_eq!(detail.list_ntc, vec![212, 193, 190]);
    assert_eq!(sink.written, vec![Request::BatteryDetail.bytes()]);
}

#[test]
fn request_protect_round_trip() {
    let mut sink = Sink { written: Vec::new(), fail: false };
    let mut recv = receiver(vec![response_for_request(&Request::BatteryProtect)]);
    let protect = request_protect(&mut sink, &mut recv).unwrap();
    assert_eq!(protect.cell_undervoltage, 4);
    assert_eq!(protect.short_circuit, 0);
    assert_eq!(sink.written, vec![Request::BatteryProtect.bytes()]);
}

#[test]
fn wrong_message_kind_is_a_wrong_notification() {
    let mut sink = Sink { written: Vec::new(), fail: false };
    // a voltage frame arrives although detail was requested
    let mut recv = receiver(vec![response_for_request(&Request::BatteryVoltage)]);
    assert_eq!(
        request_detail(&mut sink, &mut recv),
        Err(RequestError::WrongNotificationReceived)
    );
}

#[test]
fn corrupt_reply_is_a_wrong_notification() {
    let mut sink = Sink { written: Vec::new(), fail: false };
    let mut frame = response_for_request(&Request::BatteryVoltage);
    frame[12] ^= 0xff;
    let mut recv = receiver(vec![frame]);
    assert_eq!(
        request_soc(&mut sink, &mut recv),
        Err(RequestError::WrongNotificationReceived)
    );
}

#[test]
fn transport_failure_is_passed_through() {
    let mut sink = Sink { written: Vec::new(), fail: true };
    let mut recv = receiver(vec![response_for_request(&Request::BatteryVoltage)]);
    assert_eq!(
        request_soc(&mut sink, &mut recv),
        Err(RequestError::Transport(TransportError))
    );
    assert!(sink.written.is_empty());
}
